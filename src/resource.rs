use vstd::prelude::*;

verus! {

/// Files bundled with the library.
pub struct Resource;

impl Resource {
    /// The sample `Progress.dat.xml` document. No sample document is bundled
    /// with this library, so it is empty; callers treat an empty sample as
    /// absent.
    pub fn get_example() -> (r: Vec<u8>)
        ensures
            r@.len() == 0,
    {
        Vec::new()
    }
}

} // verus!
