//! Extension property records: decoding the fixed-size native records
//! the two-call extension enumeration fills. The native calls run
//! outside the crate and hand the raw records in.

use crate::rc_string::RCString;
use crate::rc_string::c_buffer_prefix;
use crate::rc_string::lemma_nul_prefix_no_nul;
use crate::rc_string::nul_prefix;
use vstd::prelude::*;
use vstd::utf8::*;

verus! {

/// One native extension record as the native enumeration fills it: a
/// fixed-size nul-terminated C string buffer and a version value.
pub struct RawExtensionProperties {
    pub extension_name: Vec<u8>,
    pub spec_version: u32,
}

impl RawExtensionProperties {
    /// The name field, read up to its first nul, is valid UTF-8.
    pub open spec fn decodable(&self) -> bool {
        valid_utf8(nul_prefix(self.extension_name@))
    }
}

/// A decoded extension record.
pub struct ExtensionProperties {
    pub extension_name: RCString,
    pub spec_version: u32,
}

impl ExtensionProperties {
    pub open spec fn wf(&self) -> bool {
        self.extension_name.wf()
    }

    /// What decoding one raw record must produce: the C string field
    /// read up to its first nul and decoded as UTF-8, the version copied.
    pub open spec fn decodes(&self, raw: RawExtensionProperties) -> bool {
        &&& self.extension_name.text() == decode_utf8(nul_prefix(raw.extension_name@))
        &&& self.spec_version == raw.spec_version
    }

    /// Decode one native record.
    pub fn from_raw(raw: &RawExtensionProperties) -> (r: ExtensionProperties)
        requires
            raw.decodable(),
        ensures
            r.wf(),
            r.decodes(*raw),
    {
        proof {
            lemma_nul_prefix_no_nul(raw.extension_name@);
        }
        let name_bytes = c_buffer_prefix(raw.extension_name.as_slice());
        let extension_name = RCString::from_cstr(name_bytes.as_slice());
        ExtensionProperties { extension_name, spec_version: raw.spec_version }
    }
}

/// Decode the records the two-call native extension enumeration filled:
/// one decoded record per raw record, order kept.
pub fn decode_extension_properties(raws: &Vec<RawExtensionProperties>) -> (r: Vec<
    ExtensionProperties,
>)
    requires
        forall|i: int| 0 <= i < raws@.len() ==> raws@[i].decodable(),
    ensures
        r@.len() == raws@.len(),
        forall|i: int| 0 <= i < raws@.len() ==> r@[i].wf() && r@[i].decodes(raws@[i]),
{
    let mut r: Vec<ExtensionProperties> = Vec::new();
    let mut i: usize = 0;
    while i < raws.len()
        invariant
            i <= raws@.len(),
            r@.len() == i,
            forall|j: int| 0 <= j < i ==> r@[j].wf() && r@[j].decodes(raws@[j]),
            forall|k: int| 0 <= k < raws@.len() ==> raws@[k].decodable(),
        decreases raws@.len() - i,
    {
        let rec = ExtensionProperties::from_raw(&raws[i]);
        r.push(rec);
        i += 1;
    }
    r
}

} // verus!
