//! The render thread's table of viewports: one offscreen image and camera per
//! renderer, found again by the image id.
use vstd::prelude::*;

verus! {

/// One viewport: its offscreen image, its camera entity and its extent.
#[derive(Clone, Copy, Debug, PartialEq, Eq)]
pub struct Viewport {
    pub image: u64,
    pub camera: u64,
    pub width: u32,
    pub height: u32,
}

/// The first position in `s` holding a viewport of `image`, if any.
pub open spec fn first_with_image(s: Seq<Viewport>, image: u64) -> Option<int> {
    if exists|i: int| 0 <= i < s.len() && #[trigger] s[i].image == image {
        Some(choose|i: int| 0 <= i < s.len() && s[i].image == image && forall|j: int| 0 <= j < i ==> #[trigger] s[j].image != image)
    } else {
        None
    }
}

/// The viewports of the render thread, in creation order.
pub struct ViewportTable {
    viewports: Vec<Viewport>,
}

impl ViewportTable {
    /// The viewports, in creation order.
    pub closed spec fn view(&self) -> Seq<Viewport> {
        self.viewports@
    }

    /// No viewport yet.
    pub fn new() -> (r: Self)
        ensures
            r@ == Seq::<Viewport>::empty(),
    {
        ViewportTable { viewports: Vec::new() }
    }

    /// The number of viewports.
    pub fn len(&self) -> (r: usize)
        ensures
            r == self@.len(),
    {
        self.viewports.len()
    }

    fn position(&self, image: u64) -> (r: Option<usize>)
        ensures
            match r {
                Some(k) => k < self@.len() && first_with_image(self@, image) == Some(k as int),
                None => first_with_image(self@, image) is None,
            },
    {
        let mut i: usize = 0;
        while i < self.viewports.len()
            invariant
                i <= self@.len(),
                forall|j: int| 0 <= j < i ==> #[trigger] self@[j].image != image,
            decreases self.viewports.len() - i,
        {
            if self.viewports[i].image == image {
                proof {
                    let c = choose|c: int| 0 <= c < self@.len() && self@[c].image == image && forall|j: int|
                        0 <= j < c ==> #[trigger] self@[j].image != image;
                    assert(self@[i as int].image == image);
                    assert(c == i) by {
                        if c < i {
                        } else if c > i {
                            assert(self@[i as int].image == image);
                        }
                    }
                }
                return Some(i);
            }
            i = i + 1;
        }
        None
    }

    /// Record a newly spawned viewport.
    pub fn create(&mut self, viewport: Viewport)
        ensures
            final(self)@ == old(self)@.push(viewport),
    {
        self.viewports.push(viewport);
    }

    /// Remove the first viewport of `image` and return it (its camera is then
    /// despawned and its image dropped); `None` when no viewport has it.
    pub fn dispose(&mut self, image: u64) -> (r: Option<Viewport>)
        ensures
            match first_with_image(old(self)@, image) {
                Some(i) => r == Some(old(self)@[i]) && final(self)@ == old(self)@.remove(i),
                None => r is None && final(self)@ == old(self)@,
            },
    {
        match self.position(image) {
            Some(i) => Some(self.viewports.remove(i)),
            None => None,
        }
    }

    /// Record the new extent of the first viewport of `image` (whose image is
    /// then resized); returns whether there was one.
    pub fn resize(&mut self, image: u64, width: u32, height: u32) -> (found: bool)
        ensures
            match first_with_image(old(self)@, image) {
                Some(i) => found && final(self)@ == old(self)@.update(
                    i,
                    Viewport { image: old(self)@[i].image, camera: old(self)@[i].camera, width, height },
                ),
                None => !found && final(self)@ == old(self)@,
            },
    {
        match self.position(image) {
            Some(i) => {
                let v = self.viewports[i];
                self.viewports.set(i, Viewport { image: v.image, camera: v.camera, width, height });
                true
            },
            None => false,
        }
    }

    /// The first viewport of `image`.
    pub fn find(&self, image: u64) -> (r: Option<Viewport>)
        ensures
            match first_with_image(self@, image) {
                Some(i) => r == Some(self@[i]),
                None => r is None,
            },
    {
        match self.position(image) {
            Some(i) => Some(self.viewports[i]),
            None => None,
        }
    }
}

/// A viewport created for an image no other viewport has is the one disposed
/// for that image, and disposing it gives back the table as it was.
pub proof fn law_dispose_undoes_create(table: Seq<Viewport>, v: Viewport)
    requires
        forall|i: int| 0 <= i < table.len() ==> #[trigger] table[i].image != v.image,
    ensures
        first_with_image(table.push(v), v.image) == Some(table.len() as int),
        table.push(v).remove(table.len() as int) == table,
{
    let s = table.push(v);
    assert(s[table.len() as int].image == v.image);
    let c = choose|c: int| 0 <= c < s.len() && s[c].image == v.image && forall|j: int| 0 <= j < c ==> #[trigger] s[j].image != v.image;
    assert(c == table.len()) by {
        if c < table.len() {
            assert(s[c] == table[c]);
        }
    }
    assert(s.remove(table.len() as int) =~= table);
}

} // verus!
