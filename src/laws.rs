//! Properties of decoding and classification that hold for every raw code.
use vstd::prelude::*;
use crate::bits::{bit_field, bit_set};
use crate::decimal::decimal;
use crate::error::Error;
use crate::kind::Tss2ResponseCodeKind;
use crate::response_code::{
    decode, format_selector, FormatOneResponseCode, FormatZeroResponseCode, Tss2ResponseCode,
};

verus! {

/// One bit per set flag.
pub open spec fn flag(b: bool) -> u32 {
    if b {
        1
    } else {
        0
    }
}

/// The raw bits of a Format-Zero layout.
pub open spec fn format_zero_layout(e: u32, v: u32, t: u32, s: u32) -> u32 {
    e | (v << 8u32) | (t << 10u32) | (s << 11u32)
}

/// The raw bits of a Format-One layout, with bit 7 set.
pub open spec fn format_one_layout(e: u32, p: u32, n: u32) -> u32 {
    e | (p << 6u32) | 0x80u32 | (n << 8u32)
}

/// The raw code that carries the fields of a Format-Zero code.
pub open spec fn format_zero_raw(rc: FormatZeroResponseCode) -> u32 {
    format_zero_layout(
        rc.error_number,
        flag(rc.version),
        flag(rc.tcg_vendor_indicator),
        flag(rc.severity),
    )
}

/// The raw code that carries the fields of a Format-One code.
pub open spec fn format_one_raw(rc: FormatOneResponseCode) -> u32 {
    format_one_layout(rc.error_number, flag(rc.parameter), rc.number)
}

proof fn lemma_format_zero_layout(e: u32, v: u32, t: u32, s: u32)
    by (bit_vector)
    requires
        e < 0x80,
        v <= 1,
        t <= 1,
        s <= 1,
    ensures
        bit_field(format_zero_layout(e, v, t, s), 6, 0) == e,
        bit_set(format_zero_layout(e, v, t, s), 8) == (v == 1),
        bit_set(format_zero_layout(e, v, t, s), 10) == (t == 1),
        bit_set(format_zero_layout(e, v, t, s), 11) == (s == 1),
        !bit_set(format_zero_layout(e, v, t, s), 7),
        format_zero_layout(e, v, t, s) == 0 <==> (e == 0 && v == 0 && t == 0 && s == 0),
{
}

proof fn lemma_format_one_layout(e: u32, p: u32, n: u32)
    by (bit_vector)
    requires
        e < 0x40,
        p <= 1,
        n < 0x10,
    ensures
        bit_field(format_one_layout(e, p, n), 5, 0) == e,
        bit_set(format_one_layout(e, p, n), 6) == (p == 1),
        bit_field(format_one_layout(e, p, n), 11, 8) == n,
        bit_set(format_one_layout(e, p, n), 7),
        format_one_layout(e, p, n) != 0,
{
}

/// A raw code decodes as success exactly when it is zero, and exactly then
/// do the success predicates of the decoded code and of the error made from
/// it hold.
pub proof fn lemma_success_iff_zero(raw: u32)
    ensures
        (raw == 0) <==> decode(raw) is Success,
        (raw == 0) <==> Error::Tss2Error(decode(raw)).spec_is_success(),
{
}

/// A nonzero raw code decodes in Format-One when bit 7 is set and in
/// Format-Zero when it is clear, and never in both.
pub proof fn lemma_selector_decides_format(raw: u32)
    requires
        raw != 0,
    ensures
        format_selector(raw) <==> raw & 0x80 != 0,
        format_selector(raw) <==> decode(raw) is FormatOne,
        !format_selector(raw) <==> decode(raw) is FormatZero,
        !(decode(raw) is FormatOne && decode(raw) is FormatZero),
{
    assert(bit_set(raw, 7) <==> raw & 0x80 != 0) by (bit_vector);
}

/// A Format-Zero code with the vendor bit set is a vendor code, whatever its
/// severity and error number.
pub proof fn lemma_vendor_preempts(raw: u32)
    requires
        decode(raw) matches Tss2ResponseCode::FormatZero(rc) && rc.tcg_vendor_indicator,
    ensures
        decode(raw).spec_kind() == Some(Tss2ResponseCodeKind::TpmVendorSpecific),
{
}

/// A Format-One code names the parameter `number` when bit 6 is set; else the
/// handle `number` for a number up to 7; else the session `number - 8`, which
/// lies between 0 and 7.
pub proof fn lemma_associated_number_rule(raw: u32)
    requires
        raw != 0,
        format_selector(raw),
    ensures
        ({
            let n = bit_field(raw, 11, 8);
            let m = decode(raw).spec_associated_message();
            &&& bit_set(raw, 6) ==> m == "associated with parameter number "@ + decimal(n as nat)
            &&& !bit_set(raw, 6) && n <= 7 ==> m == "associated with handle number "@ + decimal(
                n as nat,
            )
            &&& !bit_set(raw, 6) && n > 7 ==> 0 <= n - 8 <= 7 && m
                == "associated with session number "@ + decimal((n - 8) as nat)
        }),
{
    assert(bit_field(raw, 11, 8) < 0x10) by (bit_vector);
}

/// Decoding the raw code made from the fields of a Format-Zero code gives
/// back those fields, unless all of them are zero, which makes the raw code
/// zero.
pub proof fn lemma_format_zero_round_trip(rc: FormatZeroResponseCode)
    requires
        rc.wf(),
        !(rc.error_number == 0 && !rc.version && !rc.tcg_vendor_indicator && !rc.severity),
    ensures
        decode(format_zero_raw(rc)) == Tss2ResponseCode::FormatZero(rc),
{
    lemma_format_zero_layout(
        rc.error_number,
        flag(rc.version),
        flag(rc.tcg_vendor_indicator),
        flag(rc.severity),
    );
}

/// Decoding the raw code made from the fields of a Format-One code gives back
/// those fields.
pub proof fn lemma_format_one_round_trip(rc: FormatOneResponseCode)
    requires
        rc.wf(),
    ensures
        decode(format_one_raw(rc)) == Tss2ResponseCode::FormatOne(rc),
{
    lemma_format_one_layout(rc.error_number, flag(rc.parameter), rc.number);
}

} // verus!
