//! Graphics-instance wrapper: a builder-style configuration of names,
//! versions, layer names and extension names, and the lifecycle of the
//! one native instance handle created from it. The native create and
//! destroy calls run outside the crate; this type decides what each
//! outcome means and hands its handle out for destruction at most once.

use crate::rc_string::RCString;
use crate::rc_string::lemma_ascii_no_nul;
use crate::vulkan::VK_SUCCESS;
use crate::vulkan::make_api_version;
use crate::vulkan::make_version;
use crate::vulkan::spec_make_api_version;
use crate::vulkan::spec_make_version;
use vstd::prelude::*;
use vstd::string::*;
use vstd::utf8::*;

verus! {

/// The application description handed to the native create call.
pub struct ApplicationInfo {
    pub application_name: RCString,
    pub application_version: u32,
    pub engine_name: RCString,
    pub engine_version: u32,
    pub api_version: u32,
}

impl ApplicationInfo {
    pub open spec fn wf(&self) -> bool {
        &&& self.application_name.wf()
        &&& self.engine_name.wf()
    }
}

/// The full request handed to the native create call: flags, the
/// application description, and the layer and extension names to enable.
pub struct InstanceCreateInfo {
    pub flags: u32,
    pub application_info: ApplicationInfo,
    pub enabled_layer_names: Vec<RCString>,
    pub enabled_extension_names: Vec<RCString>,
}

impl InstanceCreateInfo {
    pub open spec fn wf(&self) -> bool {
        &&& self.application_info.wf()
        &&& forall|i: int|
            0 <= i < self.enabled_layer_names@.len() ==> self.enabled_layer_names@[i].wf()
        &&& forall|i: int|
            0 <= i < self.enabled_extension_names@.len()
                ==> self.enabled_extension_names@[i].wf()
    }
}

/// The graphics instance: its creation request and the address of the
/// owned native handle, zero when absent. The handle is never handed
/// out for a native destroy call more than once.
pub struct Instance {
    pub instance_info: InstanceCreateInfo,
    p_instance: usize,
}

impl Instance {
    /// The address of the owned native handle; zero when absent.
    pub closed spec fn handle(&self) -> usize {
        self.p_instance
    }

    /// The creation request is well-formed.
    pub closed spec fn wf(&self) -> bool {
        self.instance_info.wf()
    }

    /// The creation request, as contracts speak of it.
    pub closed spec fn spec_info(&self) -> InstanceCreateInfo {
        self.instance_info
    }

    /// The stored handle address, for native calls that use the instance.
    pub fn native_handle(&self) -> (r: usize)
        ensures
            r == self.handle(),
    {
        self.p_instance
    }

    /// Judge the outcome of the native create call, which the caller
    /// issued with the marshaled creation request: a success result
    /// stores the address of the new handle, any other result leaves
    /// the instance as it was and carries the native code back.
    pub fn create(&mut self, native_result: i32, native_handle: usize) -> (r: Result<(), i32>)
        ensures
            final(self).spec_info() == old(self).spec_info(),
            native_result == VK_SUCCESS <==> r is Ok,
            native_result == VK_SUCCESS ==> final(self).handle() == native_handle,
            native_result != VK_SUCCESS ==> final(self).handle() == old(self).handle() && r
                == Err::<(), i32>(native_result),
    {
        if native_result == VK_SUCCESS {
            self.p_instance = native_handle;
            Ok(())
        } else {
            Err(native_result)
        }
    }

    /// Begin teardown: clear the stored handle and return the address
    /// the caller must pass to the native destroy call, zero when there
    /// is nothing left to destroy. The address is handed out at most
    /// once, so the native destroy never sees an absent handle and a
    /// repeated destroy finds nothing to do.
    pub fn destroy(&mut self) -> (r: usize)
        ensures
            r == old(self).handle(),
            final(self).handle() == 0,
            final(self).spec_info() == old(self).spec_info(),
    {
        let r = self.p_instance;
        self.p_instance = 0;
        r
    }
}

impl Default for Instance {
    /// No handle yet; an empty application name, the default engine
    /// name, and version one of both the application and the engine
    /// against API version one.
    fn default() -> (r: Self)
        ensures
            r.handle() == 0,
            r.wf(),
            r.spec_info().flags == 0,
            r.spec_info().enabled_layer_names@.len() == 0,
            r.spec_info().enabled_extension_names@.len() == 0,
            r.spec_info().application_info.application_name.text() == Seq::<char>::empty(),
            r.spec_info().application_info.application_version == spec_make_version(1, 0, 0),
            r.spec_info().application_info.engine_name.text() == "No Engine"@,
            r.spec_info().application_info.engine_version == spec_make_version(1, 0, 0),
            r.spec_info().application_info.api_version == spec_make_api_version(0, 1, 0, 0),
    {
        proof {
            reveal_strlit("");
            assert(encode_utf8(""@) =~= Seq::<u8>::empty());
            assert(!"".spec_bytes().contains(0));
            reveal_strlit("No Engine");
            assert(is_ascii_chars("No Engine"@));
            assert(forall|i: int| 0 <= i < "No Engine"@.len() ==> "No Engine"@[i] != '\0');
            lemma_ascii_no_nul("No Engine"@);
        }
        let application_name = RCString::from_rstr("");
        let engine_name = RCString::from_rstr("No Engine");
        proof {
            assert(application_name.text() =~= Seq::<char>::empty());
        }
        let application_info = ApplicationInfo {
            application_name,
            application_version: make_version(1, 0, 0),
            engine_name,
            engine_version: make_version(1, 0, 0),
            api_version: make_api_version(0, 1, 0, 0),
        };
        Instance {
            p_instance: 0,
            instance_info: InstanceCreateInfo {
                flags: 0,
                application_info,
                enabled_layer_names: Vec::new(),
                enabled_extension_names: Vec::new(),
            },
        }
    }
}

/// The layer names to enable: the one validation layer when validation
/// is requested, nothing otherwise.
pub fn enabled_layer_names(enable_validation_layers: bool) -> (r: Vec<RCString>)
    ensures
        enable_validation_layers ==> r@.len() == 1 && r@[0].wf() && r@[0].text()
            == "VK_LAYER_KHRONOS_validation"@,
        !enable_validation_layers ==> r@.len() == 0,
{
    let mut r: Vec<RCString> = Vec::new();
    if enable_validation_layers {
        proof {
            reveal_strlit("VK_LAYER_KHRONOS_validation");
            assert(is_ascii_chars("VK_LAYER_KHRONOS_validation"@));
            assert(forall|i: int|
                0 <= i < "VK_LAYER_KHRONOS_validation"@.len()
                    ==> "VK_LAYER_KHRONOS_validation"@[i] != '\0');
            lemma_ascii_no_nul("VK_LAYER_KHRONOS_validation"@);
        }
        r.push(RCString::from_rstr("VK_LAYER_KHRONOS_validation"));
    }
    r
}

} // verus!
