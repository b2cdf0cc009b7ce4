//! Library bootstrap wrapper: one-time initialization of the native
//! windowing library and loading of the graphics driver backend, with a
//! teardown that releases both in reverse order at most once. The native
//! calls themselves run outside the crate; this type decides which calls
//! are due and what each outcome means, and tracks what was acquired.

use vstd::prelude::*;

verus! {

/// Which native teardown calls the caller must now issue, in this order:
/// unload the graphics driver backend first, then quit the library.
pub struct ReleaseActions {
    pub unload_vulkan: bool,
    pub quit: bool,
}

/// Bootstrap state: what has been initialized so far.
pub struct Instance {
    sdl_inited: bool,
    vulkan_library_loaded: bool,
}

impl Default for Instance {
    /// Nothing initialized yet.
    fn default() -> (r: Self)
        ensures
            !r.inited(),
            !r.vulkan_loaded(),
    {
        Instance { sdl_inited: false, vulkan_library_loaded: false }
    }
}

impl Instance {
    /// Whether the native library initialization has succeeded.
    pub closed spec fn inited(&self) -> bool {
        self.sdl_inited
    }

    /// Whether the graphics driver backend has been loaded.
    pub closed spec fn vulkan_loaded(&self) -> bool {
        self.vulkan_library_loaded
    }

    pub fn is_inited(&self) -> (r: bool)
        ensures
            r == self.inited(),
    {
        self.sdl_inited
    }

    pub fn is_vulkan_loaded(&self) -> (r: bool)
        ensures
            r == self.vulkan_loaded(),
    {
        self.vulkan_library_loaded
    }

    /// Record the outcome of the native initialization call. A second
    /// initialization is refused outright: callers must not attempt it.
    /// A zero result is success; any other result carries the native
    /// error message fetched by the caller.
    pub fn init(&mut self, native_result: i32, native_error: String) -> (r: Result<
        (),
        (i32, String),
    >)
        requires
            !old(self).inited(),
        ensures
            final(self).vulkan_loaded() == old(self).vulkan_loaded(),
            final(self).inited() == (native_result == 0),
            native_result == 0 <==> r is Ok,
            r matches Err(e) ==> e.0 == native_result && e.1@ == native_error@,
    {
        if native_result != 0 {
            Err((native_result, native_error))
        } else {
            self.sdl_inited = true;
            Ok(())
        }
    }

    /// Record the outcome of the native call that loads the graphics
    /// driver backend. A zero result is success.
    pub fn load_vulkan(&mut self, native_result: i32, native_error: String) -> (r: Result<
        (),
        (i32, String),
    >)
        ensures
            final(self).inited() == old(self).inited(),
            native_result == 0 ==> final(self).vulkan_loaded() && r is Ok,
            native_result != 0 ==> final(self).vulkan_loaded() == old(self).vulkan_loaded(),
            native_result == 0 <==> r is Ok,
            r matches Err(e) ==> e.0 == native_result && e.1@ == native_error@,
    {
        if native_result != 0 {
            Err((native_result, native_error))
        } else {
            self.vulkan_library_loaded = true;
            Ok(())
        }
    }

    /// Begin teardown: clear the state and say which native calls are due.
    /// Each acquired resource is released exactly once; on a state with
    /// nothing acquired the result demands no call at all, so a second
    /// release is harmless.
    pub fn release(&mut self) -> (r: ReleaseActions)
        ensures
            r.unload_vulkan == old(self).vulkan_loaded(),
            r.quit == old(self).inited(),
            !final(self).inited(),
            !final(self).vulkan_loaded(),
    {
        let r = ReleaseActions {
            unload_vulkan: self.vulkan_library_loaded,
            quit: self.sdl_inited,
        };
        self.vulkan_library_loaded = false;
        self.sdl_inited = false;
        r
    }

    /// Interpret the error state observed after the teardown calls: when
    /// nothing was released there is nothing to report; otherwise an empty
    /// native error message means a clean teardown.
    pub fn release_outcome(actions: &ReleaseActions, native_error: String) -> (r: Result<
        (),
        String,
    >)
        ensures
            !(actions.unload_vulkan || actions.quit) ==> r is Ok,
            (actions.unload_vulkan || actions.quit) ==> ((r is Ok) <==> native_error@.len()
                == 0),
            r matches Err(e) ==> e@ == native_error@,
    {
        if !(actions.unload_vulkan || actions.quit) {
            return Ok(());
        }
        if native_error.as_str().is_empty() {
            Ok(())
        } else {
            Err(native_error)
        }
    }
}

} // verus!
