//! Window wrapper: a native window handle with its title, created from the
//! outcome of the native create call and destroyed at most once. Also the
//! decoding of the extension names the windowing layer reports for the
//! graphics backend. The native calls run outside the crate.

use crate::rc_string::RCString;
use vstd::prelude::*;
use vstd::string::*;
use vstd::utf8::*;

verus! {

/// Window creation flag: the window works with the graphics backend.
pub const SDL_WINDOW_VULKAN: u32 = 0x10000000;

/// Window creation flag: the window is shown on creation.
pub const SDL_WINDOW_SHOWN: u32 = 0x00000004;

/// A native window: its title and the address of the native handle.
/// Address zero stands for the absent handle; it is never handed out
/// for a native destroy call.
pub struct Window {
    title: RCString,
    p_window: usize,
}

impl Window {
    /// The address of the owned native handle; zero when absent.
    pub closed spec fn handle(&self) -> usize {
        self.p_window
    }

    pub closed spec fn spec_title(&self) -> Seq<char> {
        self.title.text()
    }

    pub open spec fn wf(&self) -> bool {
        self.title().wf()
    }

    /// The marshaled title; its byte view is what the native create call
    /// was given.
    pub closed spec fn title(&self) -> RCString {
        self.title
    }

    /// The stored handle address, for native calls that use the window.
    pub fn native_handle(&self) -> (r: usize)
        ensures
            r == self.handle(),
    {
        self.p_window
    }

    /// Judge the outcome of the native create call: the call returns the
    /// new window's address, zero on failure. The caller marshaled the
    /// title beforehand and passed its byte view to the call.
    pub fn create_window(title: RCString, native_handle: usize) -> (r: Result<Window, ()>)
        requires
            title.wf(),
        ensures
            native_handle == 0 <==> r is Err,
            r matches Ok(w) ==> w.wf() && w.handle() == native_handle && w.spec_title()
                == title.text(),
    {
        if native_handle == 0 {
            Err(())
        } else {
            Ok(Window { title, p_window: native_handle })
        }
    }

    /// Begin teardown: clear the stored handle and return the address the
    /// caller must pass to the native destroy call, zero when there is
    /// nothing left to destroy. The address is handed out at most once,
    /// so the native destroy never sees an absent handle and a repeated
    /// destroy finds nothing to do.
    pub fn destroy(&mut self) -> (r: usize)
        ensures
            r == old(self).handle(),
            final(self).handle() == 0,
            final(self).spec_title() == old(self).spec_title(),
            old(self).wf() ==> final(self).wf(),
    {
        let r = self.p_window;
        self.p_window = 0;
        r
    }

    /// Interpret the native error state observed after the destroy call:
    /// an empty error message means a clean destroy.
    pub fn destroy_outcome(native_error: String) -> (r: Result<(), String>)
        ensures
            (r is Ok) <==> native_error@.len() == 0,
            r matches Err(e) ==> e@ == native_error@,
    {
        if native_error.as_str().is_empty() {
            Ok(())
        } else {
            Err(native_error)
        }
    }
}

impl Default for Window {
    /// No handle yet, empty title.
    fn default() -> (r: Window)
        ensures
            r.wf(),
            r.handle() == 0,
            r.spec_title() == Seq::<char>::empty(),
    {
        proof {
            reveal_strlit("");
            assert(encode_utf8(""@) =~= Seq::<u8>::empty());
            assert(!"".spec_bytes().contains(0));
        }
        Window { title: RCString::from_rstr(""), p_window: 0 }
    }
}

/// Decode the name buffers the native extension query produced, one dual
/// string holder per name, order kept: as many holders as buffers.
pub fn decode_extension_names(names: &Vec<Vec<u8>>) -> (r: Vec<RCString>)
    requires
        forall|i: int|
            0 <= i < names@.len() ==> !names@[i]@.contains(0) && valid_utf8(names@[i]@),
    ensures
        r@.len() == names@.len(),
        forall|i: int|
            0 <= i < names@.len() ==> r@[i].wf() && r@[i].text() == decode_utf8(names@[i]@),
{
    let mut r: Vec<RCString> = Vec::new();
    let mut i: usize = 0;
    while i < names.len()
        invariant
            i <= names@.len(),
            r@.len() == i,
            forall|j: int| 0 <= j < i ==> r@[j].wf() && r@[j].text() == decode_utf8(names@[j]@),
            forall|k: int|
                0 <= k < names@.len() ==> !names@[k]@.contains(0) && valid_utf8(names@[k]@),
        decreases names@.len() - i,
    {
        let name = RCString::from_cstr(names[i].as_slice());
        r.push(name);
        i += 1;
    }
    r
}

} // verus!
