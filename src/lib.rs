use vstd::prelude::*;
use vstd::string::StringSliceAdditionalSpecFns;

verus! {

/// The text resource, as the characters it holds.
pub open spec fn text_resource() -> Seq<char> {
    seq!['{', '"', 'k', '"', ':', '"', 'v', '"', '}']
}

/// The text resource, as its UTF-8 encoding.
pub open spec fn text_resource_bytes() -> Seq<u8> {
    seq![0x7Bu8, 0x22u8, 0x6Bu8, 0x22u8, 0x3Au8, 0x22u8, 0x76u8, 0x22u8, 0x7Du8]
}

/// The binary resource, as the bytes it holds.
pub open spec fn binary_resource() -> Seq<u8> {
    seq![0x00u8, 0x01u8, 0xFFu8]
}

/// The text resource, fixed when the library is built.
pub const DATA: &'static str = "{\"k\":\"v\"}";

/// Read-only view of the text resource.
pub fn get_data() -> (r: &'static str)
    ensures
        r@ == text_resource(),
        r.spec_bytes() == text_resource_bytes(),
{
    proof {
        reveal_strlit("{\"k\":\"v\"}");
        vstd::string::is_ascii_spec_bytes(DATA);
        assert(DATA.spec_bytes() =~= text_resource_bytes());
    }
    DATA
}

/// Read-only view of the binary resource.
pub fn get_binary() -> (r: &'static [u8])
    ensures
        r@ == binary_resource(),
{
    let r: &'static [u8] = &[0x00u8, 0x01u8, 0xFFu8];
    r
}

/// Repeated calls of the accessors agree: any two results of `get_data` hold the
/// same text, and any two results of `get_binary` hold the same bytes.
pub proof fn lemma_accessors_repeatable(
    t1: &'static str,
    t2: &'static str,
    b1: &'static [u8],
    b2: &'static [u8],
)
    requires
        call_ensures(get_data, (), t1),
        call_ensures(get_data, (), t2),
        call_ensures(get_binary, (), b1),
        call_ensures(get_binary, (), b2),
    ensures
        t1@ == t2@,
        t1.spec_bytes() == t2.spec_bytes(),
        b1@ == b2@,
{
}

} // verus!
