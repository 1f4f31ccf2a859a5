use vstd::prelude::*;

verus! {

/// Holds the engine handle: empty until it is installed, once, and then
/// never changed.
pub struct EngineSlot<T> {
    handle: Option<T>,
}

impl<T> EngineSlot<T> {
    /// The installed handle, if any.
    pub closed spec fn held(&self) -> Option<T> {
        self.handle
    }

    /// An empty slot.
    pub fn new() -> (r: EngineSlot<T>)
        ensures
            r.held() is None,
    {
        EngineSlot { handle: None }
    }

    /// Installs `handle` into an empty slot. A slot that is already filled
    /// is left as it is and the handle is handed back as the error.
    pub fn set(&mut self, handle: T) -> (r: Result<(), T>)
        ensures
            old(self).held() is None ==> r is Ok && final(self).held() == Some(handle),
            old(self).held() is Some ==> r == Err::<(), T>(handle) && final(self).held() == old(self).held(),
    {
        if self.handle.is_some() {
            Err(handle)
        } else {
            self.handle = Some(handle);
            Ok(())
        }
    }

    /// Whether a handle has been installed.
    pub fn is_installed(&self) -> (r: bool)
        ensures
            r == self.held() is Some,
    {
        self.handle.is_some()
    }

    /// The installed handle.
    pub fn get(&self) -> (r: &T)
        requires
            self.held() is Some,
        ensures
            Some(*r) == self.held(),
    {
        self.handle.as_ref().unwrap()
    }
}

} // verus!
