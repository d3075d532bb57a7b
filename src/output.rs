//! Writing a skeleton back out, and when that gives back the input.
use vstd::prelude::*;
use crate::cursor::{spec_u32, window};
use crate::cursor::lemma_uleb_len;
use crate::leb::uleb;
use vstd::arithmetic::div_mod::lemma_fundamental_div_mod_converse;
use crate::parse::{
    magic, opt_model, spec_byte_array, spec_sections, spec_skeleton, version, Parseable, SectionId,
    SectionModel, Skeleton, SkeletonModel, UnparsedSection,
};

verus! {

/// The shortest unsigned LEB128 encoding of `n`.
pub open spec fn uleb_encode(n: nat) -> Seq<u8>
    decreases n,
{
    if n < 0x80 {
        seq![n as u8]
    } else {
        seq![((n % 0x80) + 0x80) as u8] + uleb_encode(n / 0x80)
    }
}

/// A section on the wire: kind, length, contents.
pub open spec fn section_bytes(s: SectionModel) -> Seq<u8> {
    seq![s.section_id.spec_code()] + uleb_encode(s.bytes.len()) + s.bytes
}

/// The non-custom section of kind code `k`, if the skeleton has one.
pub open spec fn slot(m: SkeletonModel, k: int) -> Option<SectionModel> {
    if k == 1 {
        m.ty
    } else if k == 2 {
        m.import
    } else if k == 3 {
        m.func
    } else if k == 4 {
        m.table
    } else if k == 5 {
        m.memory
    } else if k == 6 {
        m.global
    } else if k == 7 {
        m.export
    } else if k == 8 {
        m.start
    } else if k == 9 {
        m.element
    } else if k == 10 {
        m.code
    } else if k == 11 {
        m.data
    } else {
        None
    }
}

/// The non-custom sections of kind codes `1..=k`, in kind order.
pub open spec fn known_bytes(m: SkeletonModel, k: int) -> Seq<u8>
    decreases k,
{
    if k <= 0 {
        seq![]
    } else {
        known_bytes(m, k - 1) + match slot(m, k) {
            Some(s) => section_bytes(s),
            None => seq![],
        }
    }
}

/// Custom sections, in order.
pub open spec fn customs_bytes(s: Seq<SectionModel>) -> Seq<u8>
    decreases s.len(),
{
    if s.len() == 0 {
        seq![]
    } else {
        customs_bytes(s.drop_last()) + section_bytes(s.last())
    }
}

/// A skeleton written out: magic and version, the non-custom sections in
/// kind order, then the custom sections in their order.
pub open spec fn spec_output(m: SkeletonModel) -> Seq<u8> {
    magic() + version() + known_bytes(m, 11) + customs_bytes(m.custom)
}

/// Relies on `leb128::write::unsigned`: it writes the shortest LEB128
/// encoding of `v`, which writing to a `Vec` appends.
#[verifier::external_body]
fn write_unsigned(out: &mut Vec<u8>, v: u64)
    ensures
        final(out)@ == old(out)@ + uleb_encode(v as nat),
{
    let _ = leb128::write::unsigned(out, v);
}

/// Append one section.
fn write_section<'a>(out: &mut Vec<u8>, s: &UnparsedSection<'a>)
    ensures
        final(out)@ == old(out)@ + section_bytes(s.model()),
{
    let ghost start = out@;
    out.push(s.section_id.code());
    write_unsigned(out, s.bytes.len() as u64);
    let ghost header = out@;
    let mut i: usize = 0;
    while i < s.bytes.len()
        invariant
            i <= s.bytes@.len(),
            out@ == header + s.bytes@.subrange(0, i as int),
        decreases s.bytes@.len() - i,
    {
        out.push(s.bytes[i]);
        assert(out@ =~= header + s.bytes@.subrange(0, i + 1));
        i = i + 1;
    }
    assert(s.bytes@.subrange(0, s.bytes@.len() as int) =~= s.bytes@);
    assert(out@ =~= start + section_bytes(s.model()));
}

/// The non-custom section of kind code `k`.
fn slot_section<'a, 'b>(skeleton: &'b Skeleton<'a>, k: u8) -> (r: &'b Option<UnparsedSection<'a>>)
    requires
        1 <= k <= 11,
    ensures
        opt_model(*r) == slot(skeleton.model(), k as int),
{
    match k {
        1 => &skeleton.ty,
        2 => &skeleton.import,
        3 => &skeleton.func,
        4 => &skeleton.table,
        5 => &skeleton.memory,
        6 => &skeleton.global,
        7 => &skeleton.export,
        8 => &skeleton.start,
        9 => &skeleton.element,
        10 => &skeleton.code,
        _ => &skeleton.data,
    }
}

/// Append a section if there is one.
fn write_slot<'a>(out: &mut Vec<u8>, s: &Option<UnparsedSection<'a>>)
    ensures
        final(out)@ == old(out)@ + match opt_model(*s) {
            Some(u) => section_bytes(u),
            None => seq![],
        },
{
    match s {
        Some(u) => write_section(out, u),
        None => {
            assert(out@ =~= out@ + seq![]);
        },
    }
}

/// Write a skeleton out as a module: magic and version, the non-custom
/// sections in kind order, then the custom sections in their order.
pub fn write_skeleton<'a>(skeleton: &Skeleton<'a>) -> (r: Vec<u8>)
    ensures
        r@ == spec_output(skeleton.model()),
{
    let ghost m = skeleton.model();
    let mut out: Vec<u8> = Vec::new();
    out.push(0x00);
    out.push(0x61);
    out.push(0x73);
    out.push(0x6D);
    out.push(0x01);
    out.push(0x00);
    out.push(0x00);
    out.push(0x00);
    assert(out@ =~= magic() + version() + known_bytes(m, 0));
    let mut k: u8 = 1;
    while k <= 11
        invariant
            1 <= k <= 12,
            m == skeleton.model(),
            out@ == magic() + version() + known_bytes(m, k - 1),
        decreases 12 - k,
    {
        let ghost before = out@;
        write_slot(&mut out, slot_section(skeleton, k));
        assert(out@ =~= magic() + version() + known_bytes(m, k as int));
        k = k + 1;
    }
    let ghost prefix = out@;
    let mut i: usize = 0;
    assert(m.custom.subrange(0, 0) =~= seq![]);
    while i < skeleton.custom.len()
        invariant
            m == skeleton.model(),
            i <= skeleton.custom@.len(),
            out@ == prefix + customs_bytes(m.custom.subrange(0, i as int)),
        decreases skeleton.custom@.len() - i,
    {
        write_section(&mut out, &skeleton.custom[i]);
        assert(m.custom.subrange(0, i + 1).drop_last() =~= m.custom.subrange(0, i as int));
        assert(out@ =~= prefix + customs_bytes(m.custom.subrange(0, i + 1)));
        i = i + 1;
    }
    assert(m.custom.subrange(0, m.custom.len() as int) =~= m.custom);
    assert(out@ =~= spec_output(m));
    out
}

/// Every section of the input from `pos` on writes its length in the
/// shortest form, and no non-custom section comes after a custom one
/// (`seen_custom`: a custom section came before `pos`).
pub open spec fn canonical_sections(input: Seq<u8>, pos: int, seen_custom: bool) -> bool
    decreases input.len() - pos,
{
    if pos >= input.len() {
        true
    } else {
        match UnparsedSection::spec_parse(input, pos) {
            Ok((s, p)) => {
                &&& pos < p <= input.len()
                &&& p == pos + section_bytes(s).len()
                &&& seen_custom ==> s.section_id == SectionId::Custom
                &&& canonical_sections(input, p, seen_custom || s.section_id == SectionId::Custom)
            },
            Err(_) => true,
        }
    }
}

proof fn lemma_uleb_nonneg(w: Seq<u8>)
    ensures
        uleb(w) matches Some((v, _)) ==> v >= 0,
    decreases w.len(),
{
    if w.len() > 0 {
        lemma_uleb_nonneg(w.drop_first());
    }
}

/// An encoding as long as the shortest one for its value is the shortest one.
proof fn lemma_uleb_canonical(w: Seq<u8>, v: int, k: nat)
    requires
        uleb(w) == Some((v, k)),
        k == uleb_encode(v as nat).len(),
    ensures
        w.subrange(0, k as int) == uleb_encode(v as nat),
    decreases w.len(),
{
    lemma_uleb_nonneg(w);
    if w[0] < 0x80 {
        assert(w.subrange(0, 1) =~= seq![w[0]]);
    } else {
        let rest = w.drop_first();
        let (v2, k2) = uleb(rest)->0;
        lemma_uleb_nonneg(rest);
        lemma_uleb_len(rest);
        let lo = w[0] - 0x80;
        assert(v == lo + 0x80 * v2);
        if v < 0x80 {
            assert(uleb_encode(v as nat).len() == 1);
            assert(false);
        }
        lemma_fundamental_div_mod_converse(v, 0x80, v2, lo);
        assert(uleb_encode(v as nat) == seq![((v % 0x80) + 0x80) as u8] + uleb_encode((v / 0x80) as nat));
        lemma_uleb_canonical(rest, v2, k2);
        assert(w.subrange(0, k as int) =~= seq![w[0]] + rest.subrange(0, k2 as int));
    }
}

/// A section read at `pos` under a shortest-form header is written back as
/// the bytes it was read from.
proof fn lemma_section_bytes(input: Seq<u8>, pos: int)
    requires
        0 <= pos < input.len(),
        UnparsedSection::spec_parse(input, pos) matches Ok((s, p)) && p == pos + section_bytes(s).len(),
    ensures
        UnparsedSection::spec_parse(input, pos) matches Ok((s, p)) && section_bytes(s) == input.subrange(pos, p),
{
    let (s, p) = UnparsedSection::spec_parse(input, pos)->Ok_0;
    let w = window(input, pos + 1, 5);
    let (v, k) = uleb(w)->0;
    let q = pos + 1 + k;
    lemma_uleb_len(w);
    lemma_uleb_nonneg(w);
    assert(spec_u32(input, pos + 1) == Ok::<(u32, int), crate::error::ParseError>((v as u32, q)));
    assert(spec_byte_array(input, pos + 1) == Ok::<(Seq<u8>, int), crate::error::ParseError>(
        (input.subrange(q, q + v), q + v),
    ));
    assert(s.bytes.len() == v);
    assert(section_bytes(s).len() == 1 + uleb_encode(v as nat).len() + v);
    lemma_uleb_canonical(w, v, k);
    assert(input.subrange(pos + 1, q) =~= w.subrange(0, k as int));
    assert(input.subrange(pos, p) =~= seq![input[pos]] + input.subrange(pos + 1, q) + input.subrange(q, p));
}

/// The bytes of the non-custom sections depend on those sections alone.
proof fn lemma_known_bytes_agree(m1: SkeletonModel, m2: SkeletonModel, k: int)
    requires
        forall|j: int| 1 <= j <= k ==> slot(m1, j) == slot(m2, j),
    ensures
        known_bytes(m1, k) == known_bytes(m2, k),
    decreases k,
{
    if k > 0 {
        lemma_known_bytes_agree(m1, m2, k - 1);
    }
}

/// Absent sections write nothing.
proof fn lemma_known_bytes_absent(m: SkeletonModel, j: int, k: int)
    requires
        0 <= j <= k,
        forall|i: int| j < i <= k ==> slot(m, i) is None,
    ensures
        known_bytes(m, k) == known_bytes(m, j),
    decreases k,
{
    if k > j {
        lemma_known_bytes_absent(m, j, k - 1);
        assert(known_bytes(m, k) =~= known_bytes(m, k - 1));
    }
}

/// Recording a section changes the slot of its kind, if it is not custom,
/// and no other.
proof fn lemma_with_section_slot(m: SkeletonModel, s: SectionModel, j: int)
    ensures
        slot(m.with_section(s), j) == if s.section_id != SectionId::Custom && j
            == s.section_id.spec_code() {
            Some(s)
        } else {
            slot(m, j)
        },
{
}

proof fn lemma_sections_round_trip(
    input: Seq<u8>,
    pos: int,
    last: u8,
    acc: SkeletonModel,
    seen: bool,
)
    requires
        8 <= pos <= input.len(),
        last <= 11,
        spec_sections(input, pos, last, acc) is Ok,
        canonical_sections(input, pos, seen),
        magic() + version() + known_bytes(acc, 11) + customs_bytes(acc.custom) == input.subrange(0, pos),
        !seen ==> acc.custom.len() == 0,
        forall|k: int| last < k <= 11 ==> slot(acc, k) is None,
    ensures
        spec_output(spec_sections(input, pos, last, acc)->Ok_0) == input,
    decreases input.len() - pos,
{
    if pos >= input.len() {
        assert(input.subrange(0, pos) =~= input);
    } else {
        let (s, p) = UnparsedSection::spec_parse(input, pos)->Ok_0;
        lemma_section_bytes(input, pos);
        let next = acc.with_section(s);
        assert forall|j: int| 1 <= j <= 11 implies slot(next, j) == (if s.section_id
            != SectionId::Custom && j == s.section_id.spec_code() {
            Some(s)
        } else {
            slot(acc, j)
        }) by {
            lemma_with_section_slot(acc, s, j);
        }
        assert(input.subrange(0, p) =~= input.subrange(0, pos) + input.subrange(pos, p));
        if s.section_id == SectionId::Custom {
            lemma_known_bytes_agree(next, acc, 11);
            assert(next.custom.drop_last() =~= acc.custom);
            assert(customs_bytes(next.custom) == customs_bytes(acc.custom) + section_bytes(s));
            assert(magic() + version() + known_bytes(next, 11) + customs_bytes(next.custom)
                =~= input.subrange(0, p));
            lemma_sections_round_trip(input, p, last, next, true);
        } else {
            let c = s.section_id.spec_code();
            assert(acc.custom.len() == 0);
            assert(next.custom == acc.custom);
            lemma_known_bytes_absent(next, c as int, 11);
            lemma_known_bytes_agree(next, acc, c - 1);
            lemma_known_bytes_absent(acc, last as int, c - 1);
            lemma_known_bytes_absent(acc, last as int, 11);
            assert(known_bytes(next, 11) == known_bytes(acc, 11) + section_bytes(s));
            assert(customs_bytes(acc.custom) =~= seq![]);
            assert(magic() + version() + known_bytes(next, 11) + customs_bytes(next.custom)
                =~= input.subrange(0, p));
            lemma_sections_round_trip(input, p, c, next, false);
        }
    }
}

/// Writing out the skeleton of an input gives back the input exactly, when
/// every section length in the input is written in its shortest form and no
/// custom section comes before a non-custom one.
pub proof fn lemma_skeleton_round_trip(input: Seq<u8>)
    requires
        spec_skeleton(input) is Ok,
        canonical_sections(input, 8, false),
    ensures
        spec_output(spec_skeleton(input)->Ok_0) == input,
{
    let empty = SkeletonModel::empty();
    lemma_known_bytes_absent(empty, 0, 11);
    assert(customs_bytes(empty.custom) =~= seq![]);
    assert(input.subrange(0, 4) == magic());
    assert(input.subrange(4, 8) == version());
    assert(magic() + version() + known_bytes(empty, 11) + customs_bytes(empty.custom)
        =~= input.subrange(0, 8));
    lemma_sections_round_trip(input, 8, 0, empty, false);
}

} // verus!
