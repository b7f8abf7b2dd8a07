//! The report of a failed scanout buffer allocation: which prime method
//! was tried, the devices, the format, the size and what was learned of the
//! modifiers, one line each, numbers in the forms `Display` and `{:x}` give
//! them.

use vstd::prelude::*;
use super::AllocationDebugView;
use super::RenderBufferAllocationDebug;
use super::ScanoutBufferError;
use super::ScanoutBufferErrors;
use super::spec_prime_method_name;
use super::prime_methods::str_chars;

verus! {

/// The hexadecimal digit of a value below 16, in lower case.
pub open spec fn spec_hex_digit(d: nat) -> char {
    if d < 10 {
        (48 + d) as char
    } else {
        (87 + d) as char
    }
}

/// A number in hexadecimal, without leading zeros (`{:x}`).
pub open spec fn spec_hex(v: nat) -> Seq<char>
    decreases v,
{
    if v < 16 {
        seq![spec_hex_digit(v)]
    } else {
        spec_hex(v / 16).push(spec_hex_digit(v % 16))
    }
}

/// A number in decimal, without leading zeros.
pub open spec fn spec_dec(v: nat) -> Seq<char>
    decreases v,
{
    if v < 10 {
        seq![(48 + v) as char]
    } else {
        spec_dec(v / 10).push((48 + v % 10) as char)
    }
}

/// A signed number in decimal (`Display`).
pub open spec fn spec_dec_int(v: int) -> Seq<char> {
    if v < 0 {
        seq!['-'] + spec_dec((-v) as nat)
    } else {
        spec_dec(v as nat)
    }
}

/// The items of a list in hexadecimal, separated by `, `.
pub open spec fn spec_hex_items(l: Seq<u64>) -> Seq<char>
    decreases l.len(),
{
    if l.len() == 0 {
        Seq::empty()
    } else if l.len() == 1 {
        spec_hex(l[0] as nat)
    } else {
        spec_hex_items(l.drop_last()) + ", "@ + spec_hex(l.last() as nat)
    }
}

/// A list in hexadecimal, in brackets (`{:x?}`).
pub open spec fn spec_hex_list(l: Seq<u64>) -> Seq<char> {
    "["@ + spec_hex_items(l) + "]"@
}

/// The elements of a set in hexadecimal, in braces (`{:x?}` of a set).
pub open spec fn spec_hex_set(l: Seq<u64>) -> Seq<char> {
    "{"@ + spec_hex_items(l) + "}"@
}

/// A line with the label and the list, where there is a list.
pub open spec fn spec_list_line(label: Seq<char>, l: Option<Seq<u64>>) -> Seq<char> {
    match l {
        Some(l) => label + spec_hex_list(l) + "\n"@,
        None => Seq::empty(),
    }
}

/// A line with the label and the number in hexadecimal, where there is one.
pub open spec fn spec_hex_line(label: Seq<char>, v: Option<nat>) -> Seq<char> {
    match v {
        Some(v) => label + spec_hex(v) + "\n"@,
        None => Seq::empty(),
    }
}

pub open spec fn spec_opt_u32(v: Option<u32>) -> Option<nat> {
    match v {
        Some(v) => Some(v as nat),
        None => None,
    }
}

pub open spec fn spec_opt_u64(v: Option<u64>) -> Option<nat> {
    match v {
        Some(v) => Some(v as nat),
        None => None,
    }
}

/// The lines of the scanout device's findings.
pub open spec fn spec_dev_lines(d: AllocationDebugView) -> Seq<char> {
    spec_list_line("scanout copy src modifiers: "@, d.dev_copy_src_modifiers) + spec_list_line(
        "scanout copy dst modifiers: "@,
        d.dev_copy_dst_modifiers,
    ) + spec_list_line("scanout gfx writable modifiers: "@, d.dev_gfx_write_modifiers) + spec_list_line(
        "scanout dev possible modifiers: "@,
        d.dev_modifiers_possible,
    ) + spec_hex_line("scanout dev gbm usage: "@, spec_opt_u32(d.dev_usage)) + spec_hex_line(
        "scanout dev modifier: "@,
        spec_opt_u64(d.dev_modifier),
    )
}

/// The lines of the render device's findings.
pub open spec fn spec_render_lines(d: AllocationDebugView) -> Seq<char> {
    spec_list_line("render copy src modifiers: "@, d.render_copy_src_modifiers) + spec_list_line(
        "render copy dst modifiers: "@,
        d.render_copy_dst_modifiers,
    ) + spec_list_line("render gfx writable modifiers: "@, d.render_gfx_write_modifiers) + spec_list_line(
        "render gfx readable modifiers: "@,
        d.render_gfx_read_modifiers,
    ) + spec_list_line("scanout gfx readable modifiers: "@, d.dev_gfx_read_modifiers) + spec_list_line(
        "render dev possible modifiers: "@,
        d.render_modifiers_possible,
    ) + spec_hex_line("render dev gbm usage: "@, spec_opt_u32(d.render_usage)) + spec_hex_line(
        "render dev modifier: "@,
        spec_opt_u64(d.render_modifier),
    )
}

/// The report of a failed allocation: an empty line, the prime method
/// where one was tried, the scanout device, the format, the plane's
/// modifiers, the size, whether it was for a cursor, the scanout device's
/// findings, the render device where it is another one, and the render
/// device's findings. The cause is not part of it: it is the error's source.
pub open spec fn spec_error_text(e: &ScanoutBufferError) -> Seq<char> {
    spec_head_lines(e) + spec_dev_lines(e.dbg@) + match e.render_name {
        Some(n) => "render device: "@ + n@ + "\n"@,
        None => Seq::empty(),
    } + spec_render_lines(e.dbg@)
}

/// The reports of the failures, separated by lines of dashes.
pub open spec fn spec_errors_text(l: Seq<ScanoutBufferError>) -> Seq<char>
    decreases l.len(),
{
    if l.len() == 0 {
        Seq::empty()
    } else if l.len() == 1 {
        spec_error_text(&l[0])
    } else {
        spec_errors_text(l.drop_last()) + "\n------\n"@ + spec_error_text(&l.last())
    }
}

/// Calls `String::from_iter` on the characters. The contract claims that
/// the string holds exactly those characters, in order.
#[verifier::external_body]
fn chars_to_string(v: &Vec<char>) -> (r: String)
    ensures
        r@ == v@,
{
    String::from_iter(v.iter())
}

fn push_str(out: &mut Vec<char>, s: &str)
    ensures
        final(out)@ == old(out)@ + s@,
{
    let mut c = str_chars(s);
    out.append(&mut c);
}

fn hex_digit(d: u64) -> (r: char)
    requires
        d < 16,
    ensures
        r == spec_hex_digit(d as nat),
{
    if d < 10 {
        ((48 + d) as u8) as char
    } else {
        ((87 + d) as u8) as char
    }
}

fn push_hex(out: &mut Vec<char>, v: u64)
    ensures
        final(out)@ == old(out)@ + spec_hex(v as nat),
    decreases v,
{
    if v < 16 {
        out.push(hex_digit(v));
    } else {
        push_hex(out, v / 16);
        out.push(hex_digit(v % 16));
        assert(spec_hex(v as nat) == spec_hex((v / 16) as nat).push(spec_hex_digit((v % 16) as nat)));
    }
}

fn push_dec(out: &mut Vec<char>, v: u64)
    ensures
        final(out)@ == old(out)@ + spec_dec(v as nat),
    decreases v,
{
    if v < 10 {
        out.push(((48 + v) as u8) as char);
    } else {
        push_dec(out, v / 10);
        out.push(((48 + v % 10) as u8) as char);
        assert(spec_dec(v as nat) == spec_dec((v / 10) as nat).push((48 + (v % 10) as nat) as char));
    }
}

fn push_dec_i32(out: &mut Vec<char>, v: i32)
    ensures
        final(out)@ == old(out)@ + spec_dec_int(v as int),
{
    if v < 0 {
        out.push('-');
        let n: i64 = v as i64;
        let m: u64 = (-n) as u64;
        push_dec(out, m);
    } else {
        push_dec(out, v as u64);
    }
}

fn push_hex_items(out: &mut Vec<char>, l: &Vec<u64>)
    ensures
        final(out)@ == old(out)@ + spec_hex_items(l@),
{
    let ghost start = out@;
    let mut i: usize = 0;
    while i < l.len()
        invariant
            i <= l@.len(),
            out@ == start + spec_hex_items(l@.take(i as int)),
        decreases l@.len() - i,
    {
        proof {
            assert(l@.take(i + 1).drop_last() =~= l@.take(i as int));
            assert(l@.take(i + 1).last() == l@[i as int]);
        }
        if i > 0 {
            push_str(out, ", ");
        }
        push_hex(out, l[i]);
        i += 1;
        proof {
            if i == 1 {
                assert(l@.take(1)[0] == l@[0]);
            }
            assert(out@ =~= start + spec_hex_items(l@.take(i as int)));
        }
    }
    assert(l@.take(l@.len() as int) =~= l@);
}

fn push_hex_list(out: &mut Vec<char>, l: &Vec<u64>)
    ensures
        final(out)@ == old(out)@ + spec_hex_list(l@),
{
    let ghost start = out@;
    push_str(out, "[");
    push_hex_items(out, l);
    push_str(out, "]");
    assert(out@ =~= start + spec_hex_list(l@));
}

fn push_hex_set(out: &mut Vec<char>, l: &Vec<u64>)
    ensures
        final(out)@ == old(out)@ + spec_hex_set(l@),
{
    let ghost start = out@;
    push_str(out, "{");
    push_hex_items(out, l);
    push_str(out, "}");
    assert(out@ =~= start + spec_hex_set(l@));
}

fn push_list_line(out: &mut Vec<char>, label: &str, l: &Option<Vec<u64>>)
    ensures
        final(out)@ == old(out)@ + spec_list_line(
            label@,
            match l {
                Some(v) => Some(v@),
                None => None,
            },
        ),
{
    if let Some(v) = l {
        let ghost start = out@;
        push_str(out, label);
        push_hex_list(out, v);
        push_str(out, "\n");
        assert(out@ =~= start + (label@ + spec_hex_list(v@) + "\n"@));
    }
}

fn push_hex_line(out: &mut Vec<char>, label: &str, v: Option<u64>)
    ensures
        final(out)@ == old(out)@ + spec_hex_line(label@, spec_opt_u64(v)),
{
    if let Some(v) = v {
        let ghost start = out@;
        push_str(out, label);
        push_hex(out, v);
        push_str(out, "\n");
        assert(out@ =~= start + (label@ + spec_hex(v as nat) + "\n"@));
    }
}

/// The first lines of the report, up to whether it was for a cursor.
pub open spec fn spec_head_lines(e: &ScanoutBufferError) -> Seq<char> {
    "\n"@ + match e.prime {
        Some(m) => "prime type: "@ + spec_prime_method_name(m) + "\n"@,
        None => Seq::empty(),
    } + "scanout device: "@ + e.dev@ + "\n"@ + "format: "@ + e.format@ + "\n"@ + "plane modifiers: "@
        + spec_hex_set(e.plane_modifiers@) + "\n"@ + "size: "@ + spec_dec_int(e.width as int) + "x"@ + spec_dec_int(
        e.height as int,
    ) + "\n"@ + "cursor: "@ + (if e.cursor {
        "true"@
    } else {
        "false"@
    }) + "\n"@
}

#[verifier::rlimit(80)]
fn push_head_lines(out: &mut Vec<char>, e: &ScanoutBufferError)
    ensures
        final(out)@ == old(out)@ + spec_head_lines(e),
{
    let ghost start = out@;
    push_str(out, "\n");
    if let Some(m) = e.prime {
        push_str(out, "prime type: ");
        push_str(out, m.name());
        push_str(out, "\n");
    }
    push_str(out, "scanout device: ");
    push_str(out, e.dev.as_str());
    push_str(out, "\n");
    push_str(out, "format: ");
    push_str(out, e.format.as_str());
    push_str(out, "\n");
    push_str(out, "plane modifiers: ");
    push_hex_set(out, &e.plane_modifiers);
    push_str(out, "\n");
    push_str(out, "size: ");
    push_dec_i32(out, e.width);
    push_str(out, "x");
    push_dec_i32(out, e.height);
    push_str(out, "\n");
    push_str(out, "cursor: ");
    if e.cursor {
        push_str(out, "true");
    } else {
        push_str(out, "false");
    }
    push_str(out, "\n");
    assert(out@ =~= start + spec_head_lines(e));
}

proof fn lemma_append_assoc(a: Seq<char>, b: Seq<char>, c: Seq<char>)
    ensures
        a + (b + c) == (a + b) + c,
{
    assert(a + (b + c) =~= (a + b) + c);
}

fn push_dev_lines(out: &mut Vec<char>, d: &RenderBufferAllocationDebug)
    ensures
        final(out)@ == old(out)@ + spec_dev_lines(d@),
{
    let ghost start = out@;
    let ghost v = d@;
    let ghost l1 = spec_list_line("scanout copy src modifiers: "@, v.dev_copy_src_modifiers);
    let ghost l2 = spec_list_line("scanout copy dst modifiers: "@, v.dev_copy_dst_modifiers);
    let ghost l3 = spec_list_line("scanout gfx writable modifiers: "@, v.dev_gfx_write_modifiers);
    let ghost l4 = spec_list_line("scanout dev possible modifiers: "@, v.dev_modifiers_possible);
    let ghost l5 = spec_hex_line("scanout dev gbm usage: "@, spec_opt_u32(v.dev_usage));
    let ghost l6 = spec_hex_line("scanout dev modifier: "@, spec_opt_u64(v.dev_modifier));
    push_list_line(out, "scanout copy src modifiers: ", &d.dev_copy_src_modifiers);
    push_list_line(out, "scanout copy dst modifiers: ", &d.dev_copy_dst_modifiers);
    proof { lemma_append_assoc(start, l1, l2); }
    push_list_line(out, "scanout gfx writable modifiers: ", &d.dev_gfx_write_modifiers);
    proof { lemma_append_assoc(start, l1 + l2, l3); }
    push_list_line(out, "scanout dev possible modifiers: ", &d.dev_modifiers_possible);
    proof { lemma_append_assoc(start, l1 + l2 + l3, l4); }
    let usage: Option<u64> = match d.dev_usage {
        Some(u) => Some(u as u64),
        None => None,
    };
    assert(spec_opt_u64(usage) == spec_opt_u32(d.dev_usage));
    push_hex_line(out, "scanout dev gbm usage: ", usage);
    proof { lemma_append_assoc(start, l1 + l2 + l3 + l4, l5); }
    push_hex_line(out, "scanout dev modifier: ", d.dev_modifier);
    proof { lemma_append_assoc(start, l1 + l2 + l3 + l4 + l5, l6); }
}

fn push_render_lines(out: &mut Vec<char>, d: &RenderBufferAllocationDebug)
    ensures
        final(out)@ == old(out)@ + spec_render_lines(d@),
{
    let ghost start = out@;
    let ghost v = d@;
    let ghost l1 = spec_list_line("render copy src modifiers: "@, v.render_copy_src_modifiers);
    let ghost l2 = spec_list_line("render copy dst modifiers: "@, v.render_copy_dst_modifiers);
    let ghost l3 = spec_list_line("render gfx writable modifiers: "@, v.render_gfx_write_modifiers);
    let ghost l4 = spec_list_line("render gfx readable modifiers: "@, v.render_gfx_read_modifiers);
    let ghost l5 = spec_list_line("scanout gfx readable modifiers: "@, v.dev_gfx_read_modifiers);
    let ghost l6 = spec_list_line("render dev possible modifiers: "@, v.render_modifiers_possible);
    let ghost l7 = spec_hex_line("render dev gbm usage: "@, spec_opt_u32(v.render_usage));
    let ghost l8 = spec_hex_line("render dev modifier: "@, spec_opt_u64(v.render_modifier));
    push_list_line(out, "render copy src modifiers: ", &d.render_copy_src_modifiers);
    push_list_line(out, "render copy dst modifiers: ", &d.render_copy_dst_modifiers);
    proof { lemma_append_assoc(start, l1, l2); }
    push_list_line(out, "render gfx writable modifiers: ", &d.render_gfx_write_modifiers);
    proof { lemma_append_assoc(start, l1 + l2, l3); }
    push_list_line(out, "render gfx readable modifiers: ", &d.render_gfx_read_modifiers);
    proof { lemma_append_assoc(start, l1 + l2 + l3, l4); }
    push_list_line(out, "scanout gfx readable modifiers: ", &d.dev_gfx_read_modifiers);
    proof { lemma_append_assoc(start, l1 + l2 + l3 + l4, l5); }
    push_list_line(out, "render dev possible modifiers: ", &d.render_modifiers_possible);
    proof { lemma_append_assoc(start, l1 + l2 + l3 + l4 + l5, l6); }
    let usage: Option<u64> = match d.render_usage {
        Some(u) => Some(u as u64),
        None => None,
    };
    assert(spec_opt_u64(usage) == spec_opt_u32(d.render_usage));
    push_hex_line(out, "render dev gbm usage: ", usage);
    proof { lemma_append_assoc(start, l1 + l2 + l3 + l4 + l5 + l6, l7); }
    push_hex_line(out, "render dev modifier: ", d.render_modifier);
    proof { lemma_append_assoc(start, l1 + l2 + l3 + l4 + l5 + l6 + l7, l8); }
}

fn push_error_text(out: &mut Vec<char>, e: &ScanoutBufferError)
    ensures
        final(out)@ == old(out)@ + spec_error_text(e),
{
    let ghost start = out@;
    push_head_lines(out, e);
    push_dev_lines(out, &e.dbg);
    let ghost mid = out@;
    if let Some(n) = &e.render_name {
        push_str(out, "render device: ");
        push_str(out, n.as_str());
        push_str(out, "\n");
    }
    let ghost s5 = out@;
    push_render_lines(out, &e.dbg);
    assert(out@ =~= start + spec_error_text(e));
}

/// The report of a failed allocation (see [`spec_error_text`]).
pub fn scanout_buffer_error_text(e: &ScanoutBufferError) -> (r: String)
    ensures
        r@ == spec_error_text(e),
{
    let mut out: Vec<char> = Vec::new();
    push_error_text(&mut out, e);
    assert(out@ =~= spec_error_text(e));
    chars_to_string(&out)
}

/// The reports of every failure, separated by lines of dashes.
pub fn scanout_buffer_errors_text(e: &ScanoutBufferErrors) -> (r: String)
    ensures
        r@ == spec_errors_text(e.errors@),
{
    let mut out: Vec<char> = Vec::new();
    let mut i: usize = 0;
    while i < e.errors.len()
        invariant
            i <= e.errors@.len(),
            out@ == spec_errors_text(e.errors@.take(i as int)),
        decreases e.errors@.len() - i,
    {
        proof {
            assert(e.errors@.take(i + 1).drop_last() =~= e.errors@.take(i as int));
            assert(e.errors@.take(i + 1).last() == e.errors@[i as int]);
        }
        if i > 0 {
            push_str(&mut out, "\n------\n");
        }
        let ghost before = out@;
        push_error_text(&mut out, &e.errors[i]);
        i += 1;
        proof {
            if i == 1 {
                assert(e.errors@.take(1)[0] == e.errors@[0]);
                assert(out@ =~= spec_errors_text(e.errors@.take(1)));
            } else {
                assert(out@ =~= spec_errors_text(e.errors@.take(i as int)));
            }
        }
    }
    assert(e.errors@.take(e.errors@.len() as int) =~= e.errors@);
    chars_to_string(&out)
}

} // verus!
