//! Vulkan side of the binding layer: version number packing and
//! formatting, the decoded layer property records, and, in the
//! submodules, the graphics-instance wrapper and the extension records.
//! Native calls run outside the crate; this module verifies the value
//! logic around them.

use crate::rc_string::RCString;
use crate::rc_string::c_buffer_prefix;
use crate::rc_string::lemma_nul_prefix_no_nul;
use crate::rc_string::nul_prefix;
use vstd::prelude::*;
use vstd::string::*;
use vstd::utf8::*;

pub mod extensions;
pub mod instance;

verus! {

/// Native result code for success.
pub const VK_SUCCESS: i32 = 0;

/// Opaque physical device handle address, as the native enumeration
/// returns it; zero when absent.
pub struct VkPhysicalDevice {
    p_physical_device: usize,
}

impl VkPhysicalDevice {
    pub closed spec fn addr(&self) -> usize {
        self.p_physical_device
    }
}

impl Default for VkPhysicalDevice {
    fn default() -> (r: Self)
        ensures
            r.addr() == 0,
    {
        VkPhysicalDevice { p_physical_device: 0 }
    }
}

impl Clone for VkPhysicalDevice {
    fn clone(&self) -> (r: Self)
        ensures
            r.addr() == self.addr(),
    {
        VkPhysicalDevice { p_physical_device: self.p_physical_device }
    }
}

/// A packed version number: major in bits 22 and up, minor in bits 12
/// to 21, patch in the low 12 bits.
pub open spec fn spec_make_version(major: u32, minor: u32, patch: u32) -> u32 {
    (major << 22) | (minor << 12) | patch
}

/// A packed API version number: variant in bits 29 and up, then major,
/// minor and patch as in [`spec_make_version`].
pub open spec fn spec_make_api_version(variant: u32, major: u32, minor: u32, patch: u32) -> u32 {
    (variant << 29) | (major << 22) | (minor << 12) | patch
}

pub fn make_version(major: u32, minor: u32, patch: u32) -> (r: u32)
    ensures
        r == spec_make_version(major, minor, patch),
{
    (major << 22) | (minor << 12) | patch
}

pub fn make_api_version(variant: u32, major: u32, minor: u32, patch: u32) -> (r: u32)
    ensures
        r == spec_make_api_version(variant, major, minor, patch),
{
    (variant << 29) | (major << 22) | (minor << 12) | patch
}

/// Packing parts that lie within their fields and unpacking them gives
/// the parts back.
pub proof fn lemma_version_fields(major: u32, minor: u32, patch: u32)
    requires
        major < 1024,
        minor < 1024,
        patch < 4096,
    ensures
        spec_make_version(major, minor, patch) >> 22 == major,
        (spec_make_version(major, minor, patch) >> 12) & 0x3FF == minor,
        spec_make_version(major, minor, patch) & 0xFFF == patch,
{
    assert(((major << 22) | (minor << 12) | patch) >> 22 == major && (((major << 22) | (minor
        << 12) | patch) >> 12) & 0x3FF == minor && ((major << 22) | (minor << 12) | patch) & 0xFFF
        == patch) by (bit_vector)
        requires
            major < 1024 && minor < 1024 && patch < 4096,
    ;
}

/// Packing API version parts that lie within their fields and unpacking
/// them gives the parts back.
pub proof fn lemma_api_version_fields(variant: u32, major: u32, minor: u32, patch: u32)
    requires
        variant < 8,
        major < 128,
        minor < 1024,
        patch < 4096,
    ensures
        spec_make_api_version(variant, major, minor, patch) >> 29 == variant,
        (spec_make_api_version(variant, major, minor, patch) >> 22) & 0x7F == major,
        (spec_make_api_version(variant, major, minor, patch) >> 12) & 0x3FF == minor,
        spec_make_api_version(variant, major, minor, patch) & 0xFFF == patch,
{
    assert(((variant << 29) | (major << 22) | (minor << 12) | patch) >> 29 == variant && (((
    variant << 29) | (major << 22) | (minor << 12) | patch) >> 22) & 0x7F == major && (((variant
        << 29) | (major << 22) | (minor << 12) | patch) >> 12) & 0x3FF == minor && ((variant << 29)
        | (major << 22) | (minor << 12) | patch) & 0xFFF == patch) by (bit_vector)
        requires
            variant < 8 && major < 128 && minor < 1024 && patch < 4096,
    ;
}

/// The decimal digit character for `d`.
pub open spec fn dec_digit(d: nat) -> char
    recommends
        d < 10,
{
    if d == 0 {
        '0'
    } else if d == 1 {
        '1'
    } else if d == 2 {
        '2'
    } else if d == 3 {
        '3'
    } else if d == 4 {
        '4'
    } else if d == 5 {
        '5'
    } else if d == 6 {
        '6'
    } else if d == 7 {
        '7'
    } else if d == 8 {
        '8'
    } else {
        '9'
    }
}

/// The decimal digits of `n`, most significant first, no leading zeros
/// except for zero itself.
pub open spec fn dec_chars(n: nat) -> Seq<char>
    decreases n,
{
    if n < 10 {
        seq![dec_digit(n)]
    } else {
        dec_chars(n / 10).push(dec_digit(n % 10))
    }
}

/// The one-character string for a single decimal digit.
fn digit_str(d: u32) -> (r: &'static str)
    requires
        d < 10,
    ensures
        r@ == seq![dec_digit(d as nat)],
{
    if d == 0 {
        proof {
            reveal_strlit("0");
        }
        "0"
    } else if d == 1 {
        proof {
            reveal_strlit("1");
        }
        "1"
    } else if d == 2 {
        proof {
            reveal_strlit("2");
        }
        "2"
    } else if d == 3 {
        proof {
            reveal_strlit("3");
        }
        "3"
    } else if d == 4 {
        proof {
            reveal_strlit("4");
        }
        "4"
    } else if d == 5 {
        proof {
            reveal_strlit("5");
        }
        "5"
    } else if d == 6 {
        proof {
            reveal_strlit("6");
        }
        "6"
    } else if d == 7 {
        proof {
            reveal_strlit("7");
        }
        "7"
    } else if d == 8 {
        proof {
            reveal_strlit("8");
        }
        "8"
    } else {
        proof {
            reveal_strlit("9");
        }
        "9"
    }
}

/// Decimal rendering of a 32-bit value.
pub fn u32_to_string(n: u32) -> (r: String)
    ensures
        r@ == dec_chars(n as nat),
    decreases n,
{
    if n < 10 {
        digit_str(n).to_owned()
    } else {
        let prefix = u32_to_string(n / 10);
        let r = prefix.concat(digit_str(n % 10));
        proof {
            assert(r@ =~= dec_chars(n as nat));
        }
        r
    }
}

/// The text an API version prints as: the four unpacked fields in
/// decimal, separated by dots.
pub open spec fn spec_api_version_chars(version: u32) -> Seq<char> {
    dec_chars((version >> 29) as nat) + seq!['.'] + dec_chars(((version >> 22) & 0x7F) as nat)
        + seq!['.'] + dec_chars(((version >> 12) & 0x3FF) as nat) + seq!['.'] + dec_chars(
        (version & 0xFFF) as nat,
    )
}

/// Render a packed API version as its four dot-separated fields.
pub fn api_version_to_string(version: u32) -> (r: String)
    ensures
        r@ == spec_api_version_chars(version),
{
    let variant = version >> 29;
    let major = (version >> 22) & 0x7F;
    let minor = (version >> 12) & 0x3FF;
    let patch = version & 0xFFF;
    let r = u32_to_string(variant);
    let r = r.concat(".");
    let r = r.concat(u32_to_string(major).as_str());
    let r = r.concat(".");
    let r = r.concat(u32_to_string(minor).as_str());
    let r = r.concat(".");
    let r = r.concat(u32_to_string(patch).as_str());
    proof {
        reveal_strlit(".");
        assert(r@ =~= spec_api_version_chars(version));
    }
    r
}

/// Formatting a version packed from in-range parts prints those parts.
pub proof fn lemma_api_version_string_round_trip(
    variant: u32,
    major: u32,
    minor: u32,
    patch: u32,
)
    requires
        variant < 8,
        major < 128,
        minor < 1024,
        patch < 4096,
    ensures
        spec_api_version_chars(spec_make_api_version(variant, major, minor, patch)) == dec_chars(
            variant as nat,
        ) + seq!['.'] + dec_chars(major as nat) + seq!['.'] + dec_chars(minor as nat) + seq!['.']
            + dec_chars(patch as nat),
{
    lemma_api_version_fields(variant, major, minor, patch);
}

/// One native layer record as the native enumeration fills it: two
/// fixed-size nul-terminated C string buffers and two version values.
pub struct RawLayerProperties {
    pub layer_name: Vec<u8>,
    pub spec_version: u32,
    pub implementation_version: u32,
    pub description: Vec<u8>,
}

impl RawLayerProperties {
    /// The string fields, read up to their first nul, are valid UTF-8.
    pub open spec fn decodable(&self) -> bool {
        &&& valid_utf8(nul_prefix(self.layer_name@))
        &&& valid_utf8(nul_prefix(self.description@))
    }
}

/// A decoded layer record.
pub struct VkLayerProperties {
    pub layer_name: RCString,
    pub spec_version: u32,
    pub implementation_version: u32,
    pub description: RCString,
}

impl VkLayerProperties {
    pub open spec fn wf(&self) -> bool {
        &&& self.layer_name.wf()
        &&& self.description.wf()
    }

    /// What decoding one raw record must produce: each C string field
    /// read up to its first nul and decoded as UTF-8, the version
    /// values copied.
    pub open spec fn decodes(&self, raw: RawLayerProperties) -> bool {
        &&& self.layer_name.text() == decode_utf8(nul_prefix(raw.layer_name@))
        &&& self.spec_version == raw.spec_version
        &&& self.implementation_version == raw.implementation_version
        &&& self.description.text() == decode_utf8(nul_prefix(raw.description@))
    }

    /// Decode one native record.
    pub fn from_raw(raw: &RawLayerProperties) -> (r: VkLayerProperties)
        requires
            raw.decodable(),
        ensures
            r.wf(),
            r.decodes(*raw),
    {
        proof {
            lemma_nul_prefix_no_nul(raw.layer_name@);
            lemma_nul_prefix_no_nul(raw.description@);
        }
        let name_bytes = c_buffer_prefix(raw.layer_name.as_slice());
        let layer_name = RCString::from_cstr(name_bytes.as_slice());
        let desc_bytes = c_buffer_prefix(raw.description.as_slice());
        let description = RCString::from_cstr(desc_bytes.as_slice());
        VkLayerProperties {
            layer_name,
            spec_version: raw.spec_version,
            implementation_version: raw.implementation_version,
            description,
        }
    }
}

/// Decode the records the two-call native layer enumeration filled:
/// one decoded record per raw record, order kept.
pub fn decode_layer_properties(raws: &Vec<RawLayerProperties>) -> (r: Vec<VkLayerProperties>)
    requires
        forall|i: int| 0 <= i < raws@.len() ==> raws@[i].decodable(),
    ensures
        r@.len() == raws@.len(),
        forall|i: int| 0 <= i < raws@.len() ==> r@[i].wf() && r@[i].decodes(raws@[i]),
{
    let mut r: Vec<VkLayerProperties> = Vec::new();
    let mut i: usize = 0;
    while i < raws.len()
        invariant
            i <= raws@.len(),
            r@.len() == i,
            forall|j: int| 0 <= j < i ==> r@[j].wf() && r@[j].decodes(raws@[j]),
            forall|k: int| 0 <= k < raws@.len() ==> raws@[k].decodable(),
        decreases raws@.len() - i,
    {
        let rec = VkLayerProperties::from_raw(&raws[i]);
        r.push(rec);
        i += 1;
    }
    r
}

} // verus!
