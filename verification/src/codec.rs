use vstd::prelude::*;
use crate::date::Date;

verus! {

/// The decimal digits of `n`, most significant first, as ASCII bytes.
pub open spec fn spec_dec_digits(n: nat) -> Seq<u8>
    decreases n,
{
    if n < 10 {
        seq![(48 + n) as u8]
    } else {
        spec_dec_digits(n / 10).push((48 + n % 10) as u8)
    }
}

/// The decimal form of a signed number, a leading minus sign included,
/// exactly as Rust's integer formatting writes it.
pub open spec fn spec_dec_signed(i: int) -> Seq<u8> {
    if i < 0 {
        seq![45u8] + spec_dec_digits((-i) as nat)
    } else {
        spec_dec_digits(i as nat)
    }
}

/// Two ASCII digits, zero padded; meant for 0 <= n < 100.
pub open spec fn spec_pad2(n: int) -> Seq<u8> {
    seq![(48 + n / 10) as u8, (48 + n % 10) as u8]
}

/// Four ASCII digits, zero padded; meant for 0 <= n < 10000.
pub open spec fn spec_pad4(n: int) -> Seq<u8> {
    seq![
        (48 + n / 1000) as u8,
        (48 + (n / 100) % 10) as u8,
        (48 + (n / 10) % 10) as u8,
        (48 + n % 10) as u8,
    ]
}

/// The ISO-8601 form of a date, `YYYY-MM-DD`.
pub open spec fn spec_date_bytes(d: Date) -> Seq<u8> {
    spec_pad4(d.year as int) + seq![45u8] + spec_pad2(d.month as int) + seq![45u8] + spec_pad2(
        d.day as int,
    )
}

/// `true` or `false`, as bytes.
pub open spec fn spec_bool_bytes(b: bool) -> Seq<u8> {
    if b {
        seq![116u8, 114u8, 117u8, 101u8]
    } else {
        seq![102u8, 97u8, 108u8, 115u8, 101u8]
    }
}

/// The canonical signed payload of a mark request: the decimal member id,
/// then the ISO date, then the boolean, concatenated without separators.
/// Field order and formats are the wire contract shared with clients.
pub open spec fn spec_canonical_bytes(member_id: int, d: Date, is_present: bool) -> Seq<u8> {
    spec_dec_signed(member_id) + spec_date_bytes(d) + spec_bool_bytes(is_present)
}

/// Appends the decimal digits of `n` to `out`.
fn push_dec_u32(n: u32, out: &mut Vec<u8>)
    ensures
        final(out)@ == old(out)@ + spec_dec_digits(n as nat),
    decreases n,
{
    if n < 10 {
        out.push(48 + (n as u8));
    } else {
        push_dec_u32(n / 10, out);
        out.push(48 + ((n % 10) as u8));
    }
}

/// Builds the canonical payload that the authentication tag signs.
pub fn canonical_message(member_id: i32, date: &Date, is_present: bool) -> (r: Vec<u8>)
    requires
        date.wf(),
    ensures
        r@ == spec_canonical_bytes(member_id as int, *date, is_present),
{
    let mut out: Vec<u8> = Vec::new();
    if member_id < 0 {
        out.push(45);
        let mag: u32 = (-(member_id as i64)) as u32;
        proof {
            assert(mag as nat == -(member_id as int));
        }
        push_dec_u32(mag, &mut out);
    } else {
        push_dec_u32(member_id as u32, &mut out);
    }
    let y = date.year;
    out.push(48 + (y / 1000) as u8);
    out.push(48 + ((y / 100) % 10) as u8);
    out.push(48 + ((y / 10) % 10) as u8);
    out.push(48 + (y % 10) as u8);
    out.push(45);
    out.push(48 + date.month / 10);
    out.push(48 + date.month % 10);
    out.push(45);
    out.push(48 + date.day / 10);
    out.push(48 + date.day % 10);
    if is_present {
        out.push(116);
        out.push(114);
        out.push(117);
        out.push(101);
    } else {
        out.push(102);
        out.push(97);
        out.push(108);
        out.push(115);
        out.push(101);
    }
    proof {
        assert(out@ =~= spec_canonical_bytes(member_id as int, *date, is_present));
    }
    out
}

} // verus!
