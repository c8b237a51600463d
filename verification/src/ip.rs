//! IP address text validation, used by the endpoints that take an IP.
//!
//! The grammar accepted: IPv4 as four dot-separated decimal octets, each
//! without leading zeros and at most 255; IPv6 as colon-separated
//! hexadecimal groups with at most one `::` compression and, optionally,
//! embedded IPv4 text in place of the last two groups.
use vstd::prelude::*;
use vstd::string::StrSliceExecFns;

verus! {

/// Split `s` at every occurrence of `sep`. The result holds one part
/// more than `s` holds separators; parts can be empty.
pub open spec fn spec_split(s: Seq<char>, sep: char) -> Seq<Seq<char>>
    decreases s.len(),
{
    if s.len() == 0 {
        seq![Seq::<char>::empty()]
    } else if s[0] == sep {
        seq![Seq::<char>::empty()] + spec_split(s.drop_first(), sep)
    } else {
        let rest = spec_split(s.drop_first(), sep);
        seq![seq![s[0]] + rest[0]] + rest.drop_first()
    }
}

/// A split is never empty.
pub proof fn lemma_split_len(s: Seq<char>, sep: char)
    ensures
        spec_split(s, sep).len() >= 1,
    decreases s.len(),
{
    if s.len() > 0 {
        lemma_split_len(s.drop_first(), sep);
    }
}

/// The parts, pushed onto the first of what follows: the shape a split
/// takes while its head is still being read.
pub open spec fn spec_cons_first(prefix: Seq<char>, rest: Seq<Seq<char>>) -> Seq<Seq<char>>
    recommends
        rest.len() >= 1,
{
    seq![prefix + rest[0]] + rest.drop_first()
}

/// The views of a vector of strings.
pub open spec fn spec_views(parts: Seq<String>) -> Seq<Seq<char>> {
    parts.map_values(|p: String| p@)
}

/// Split `s` at every occurrence of `sep`.
pub fn split_char(s: &str, sep: char) -> (parts: Vec<String>)
    ensures
        spec_views(parts@) == spec_split(s@, sep),
{
    let len = s.unicode_len();
    let mut parts: Vec<String> = Vec::new();
    let mut start: usize = 0;
    let mut i: usize = 0;
    proof {
        lemma_split_len(s@, sep);
        assert(s@.skip(0) =~= s@);
        let t = spec_split(s@, sep);
        assert(s@.subrange(0, 0) + t[0] =~= t[0]);
        assert(spec_cons_first(s@.subrange(0, 0), t) =~~= t);
        assert(spec_views(parts@) =~~= Seq::<Seq<char>>::empty());
    }
    while i < len
        invariant
            start <= i <= len,
            len == s@.len(),
            spec_split(s@, sep) == spec_views(parts@) + spec_cons_first(
                s@.subrange(start as int, i as int),
                spec_split(s@.skip(i as int), sep),
            ),
        decreases len - i,
    {
        let ghost j = i as int;
        let ghost st = start as int;
        let ghost t = spec_split(s@.skip(j + 1), sep);
        proof {
            lemma_split_len(s@.skip(j + 1), sep);
            assert(s@.skip(j).len() > 0);
            assert(s@.skip(j)[0] == s@[j]);
            assert(s@.skip(j).drop_first() =~= s@.skip(j + 1));
        }
        if s.get_char(i) == sep {
            proof {
                assert(spec_split(s@.skip(j), sep) == seq![Seq::<char>::empty()] + t);
                assert((seq![Seq::<char>::empty()] + t)[0] == Seq::<char>::empty());
                assert((seq![Seq::<char>::empty()] + t).drop_first() =~~= t);
                assert(s@.subrange(st, j) + Seq::<char>::empty() =~= s@.subrange(st, j));
                assert(spec_cons_first(s@.subrange(st, j), spec_split(s@.skip(j), sep)) =~~= seq![
                    s@.subrange(st, j),
                ] + t);
                assert(s@.subrange(j + 1, j + 1) + t[0] =~= t[0]);
                assert(seq![t[0]] + t.drop_first() =~~= t);
                assert(spec_cons_first(s@.subrange(j + 1, j + 1), t) =~~= t);
            }
            let ghost old_parts = parts@;
            let part = s.substring_char(start, i).to_owned();
            parts.push(part);
            proof {
                assert(spec_views(parts@) =~~= spec_views(old_parts) + seq![s@.subrange(st, j)]);
                assert(spec_views(parts@) + t =~~= spec_views(old_parts) + (seq![
                    s@.subrange(st, j),
                ] + t));
            }
            start = i + 1;
        } else {
            proof {
                assert(spec_split(s@.skip(j), sep) == seq![seq![s@[j]] + t[0]] + t.drop_first());
                assert((seq![seq![s@[j]] + t[0]] + t.drop_first())[0] == seq![s@[j]] + t[0]);
                assert((seq![seq![s@[j]] + t[0]] + t.drop_first()).drop_first() =~~= t.drop_first());
                assert(s@.subrange(st, j) + (seq![s@[j]] + t[0]) =~= s@.subrange(st, j + 1) + t[0]);
                assert(spec_cons_first(s@.subrange(st, j), spec_split(s@.skip(j), sep))
                    =~~= spec_cons_first(s@.subrange(st, j + 1), t));
            }
        }
        i = i + 1;
    }
    let ghost st = start as int;
    proof {
        assert(s@.skip(len as int) =~= Seq::<char>::empty());
        assert(spec_split(Seq::<char>::empty(), sep) == seq![Seq::<char>::empty()]);
        assert(s@.subrange(st, len as int) + Seq::<char>::empty() =~= s@.subrange(st, len as int));
        assert((seq![Seq::<char>::empty()]).drop_first() =~~= Seq::<Seq<char>>::empty());
        assert(spec_cons_first(s@.subrange(st, len as int), seq![Seq::<char>::empty()]) =~~= seq![
            s@.subrange(st, len as int),
        ]);
    }
    let ghost old_parts = parts@;
    let last = s.substring_char(start, len).to_owned();
    parts.push(last);
    proof {
        assert(spec_views(parts@) =~~= spec_views(old_parts) + seq![s@.subrange(st, len as int)]);
        assert(spec_views(parts@) =~~= spec_split(s@, sep));
    }
    parts
}

/// A decimal digit.
pub open spec fn spec_is_digit(c: char) -> bool {
    48 <= c as u32 <= 57
}

/// The value of a decimal digit.
pub open spec fn spec_digit_val(c: char) -> int {
    c as u32 - 48
}

/// The value of a sequence of decimal digits, most significant first.
pub open spec fn spec_dec_value(s: Seq<char>) -> int
    decreases s.len(),
{
    if s.len() == 0 {
        0
    } else {
        spec_dec_value(s.drop_last()) * 10 + spec_digit_val(s.last())
    }
}

/// Up to three decimal digits stay below a thousand.
proof fn lemma_dec_value_small(s: Seq<char>)
    requires
        forall|i: int| 0 <= i < s.len() ==> spec_is_digit(#[trigger] s[i]),
        s.len() <= 3,
    ensures
        0 <= spec_dec_value(s) <= 999,
        s.len() <= 2 ==> spec_dec_value(s) <= 99,
        s.len() <= 1 ==> spec_dec_value(s) <= 9,
    decreases s.len(),
{
    if s.len() > 0 {
        assert(forall|i: int| 0 <= i < s.drop_last().len() ==> spec_is_digit(
            #[trigger] s.drop_last()[i],
        ));
        lemma_dec_value_small(s.drop_last());
    }
}

/// A decimal octet as IPv4 text carries it: one to three digits, no
/// leading zero, value at most 255.
pub open spec fn spec_is_dec_octet(s: Seq<char>) -> bool {
    &&& 1 <= s.len() <= 3
    &&& forall|i: int| 0 <= i < s.len() ==> spec_is_digit(#[trigger] s[i])
    &&& (s.len() > 1 ==> s[0] != '0')
    &&& spec_dec_value(s) <= 255
}

/// Whether `s` is a decimal octet.
pub fn is_dec_octet(s: &str) -> (r: bool)
    ensures
        r == spec_is_dec_octet(s@),
{
    let len = s.unicode_len();
    if len < 1 || len > 3 {
        return false;
    }
    let mut val: u32 = 0;
    let mut i: usize = 0;
    while i < len
        invariant
            i <= len,
            len == s@.len(),
            1 <= len <= 3,
            forall|k: int| 0 <= k < i ==> spec_is_digit(#[trigger] s@[k]),
            val == spec_dec_value(s@.take(i as int)),
        decreases len - i,
    {
        let c = s.get_char(i);
        let u = c as u32;
        if u < 48 || u > 57 {
            assert(!spec_is_digit(s@[i as int]));
            return false;
        }
        proof {
            assert(s@.take(i as int) =~= s@.take(i as int + 1).drop_last());
            assert(s@.take(i as int + 1).last() == s@[i as int]);
            assert(forall|k: int| 0 <= k < s@.take(i as int).len() ==> spec_is_digit(
                #[trigger] s@.take(i as int)[k],
            ));
            lemma_dec_value_small(s@.take(i as int));
        }
        val = val * 10 + (u - 48);
        i = i + 1;
    }
    assert(s@.take(len as int) =~= s@);
    if len > 1 && s.get_char(0) == '0' {
        return false;
    }
    val <= 255
}

/// IPv4 text: four decimal octets separated by dots.
pub open spec fn spec_is_ipv4(s: Seq<char>) -> bool {
    let gs = spec_split(s, '.');
    gs.len() == 4 && forall|i: int| 0 <= i < 4 ==> spec_is_dec_octet(#[trigger] gs[i])
}

/// Whether `s` is IPv4 text.
pub fn is_ipv4(s: &str) -> (r: bool)
    ensures
        r == spec_is_ipv4(s@),
{
    let parts = split_char(s, '.');
    let ghost gs = spec_split(s@, '.');
    if parts.len() != 4 {
        return false;
    }
    let mut i: usize = 0;
    while i < 4
        invariant
            i <= 4,
            parts@.len() == 4,
            gs == spec_split(s@, '.'),
            spec_views(parts@) == gs,
            gs.len() == 4,
            forall|k: int| 0 <= k < i ==> spec_is_dec_octet(#[trigger] gs[k]),
        decreases 4 - i,
    {
        assert(gs[i as int] == parts@[i as int]@);
        let part = parts[i].as_str();
        assert(part@ == parts@[i as int]@);
        if !is_dec_octet(part) {
            assert(!spec_is_dec_octet(parts@[i as int]@));
            assert(!spec_is_dec_octet(spec_split(s@, '.')[i as int]));
            assert(!spec_is_ipv4(s@));
            return false;
        }
        i = i + 1;
    }
    true
}

/// A hexadecimal digit, either case.
pub open spec fn spec_is_hex_digit(c: char) -> bool {
    48 <= c as u32 <= 57 || 97 <= c as u32 <= 102 || 65 <= c as u32 <= 70
}

/// A 16-bit group of IPv6 text: one to four hexadecimal digits.
pub open spec fn spec_is_h16(s: Seq<char>) -> bool {
    1 <= s.len() <= 4 && forall|i: int| 0 <= i < s.len() ==> spec_is_hex_digit(#[trigger] s[i])
}

/// Groups `gs[from..to]` are all 16-bit groups.
pub open spec fn spec_all_h16(gs: Seq<Seq<char>>, from: int, to: int) -> bool {
    forall|i: int| from <= i < to ==> spec_is_h16(#[trigger] gs[i])
}

/// The groups from `from` on form a well-formed tail: 16-bit groups
/// throughout, except that the last may instead be embedded IPv4 text.
pub open spec fn spec_tail_ok(gs: Seq<Seq<char>>, from: int) -> bool
    recommends
        0 <= from < gs.len(),
{
    &&& spec_all_h16(gs, from, gs.len() - 1)
    &&& (spec_is_h16(gs[gs.len() - 1]) || spec_is_ipv4(gs[gs.len() - 1]))
}

/// How many 16-bit units the tail from `from` stands for: one per group,
/// two for embedded IPv4 at the end.
pub open spec fn spec_tail_units(gs: Seq<Seq<char>>, from: int) -> int
    recommends
        0 <= from < gs.len(),
{
    (gs.len() - 1 - from) + (if spec_is_h16(gs[gs.len() - 1]) {
        1int
    } else {
        2int
    })
}

/// The compression `::` sits between two non-empty runs: every group
/// before `i` is a 16-bit group, the tail after `i` is well-formed, and
/// together they stand for at most seven units, so that the compression
/// stands for at least one zero group.
pub open spec fn spec_mid_compressed_at(gs: Seq<Seq<char>>, i: int) -> bool {
    &&& 0 < i < gs.len() - 1
    &&& gs[i].len() == 0
    &&& spec_all_h16(gs, 0, i)
    &&& spec_tail_ok(gs, i + 1)
    &&& i + spec_tail_units(gs, i + 1) <= 7
}

/// IPv6 text, split at `':'` into groups. Exactly one `::` compression
/// is allowed — leading, trailing, in the middle, or alone — and the
/// groups it joins must stand for at most seven 16-bit units; without
/// compression they must stand for exactly eight. The last group may be
/// embedded IPv4 text.
pub open spec fn spec_is_ipv6(s: Seq<char>) -> bool {
    let gs = spec_split(s, ':');
    let m = gs.len() as int;
    if m == 3 && gs[0].len() == 0 && gs[1].len() == 0 && gs[2].len() == 0 {
        true
    } else if gs[0].len() == 0 {
        &&& m >= 3
        &&& gs[1].len() == 0
        &&& spec_tail_ok(gs, 2)
        &&& spec_tail_units(gs, 2) <= 7
    } else if gs[m - 1].len() == 0 {
        &&& m >= 3
        &&& gs[m - 2].len() == 0
        &&& spec_all_h16(gs, 0, m - 2)
        &&& m - 2 <= 7
    } else {
        (exists|i: int| spec_mid_compressed_at(gs, i)) || (spec_tail_ok(gs, 0)
            && spec_tail_units(gs, 0) == 8)
    }
}

/// Whether `c` is a hexadecimal digit.
fn is_hex_digit_char(c: char) -> (r: bool)
    ensures
        r == spec_is_hex_digit(c),
{
    let u = c as u32;
    (48 <= u && u <= 57) || (97 <= u && u <= 102) || (65 <= u && u <= 70)
}

/// Whether `s` is a 16-bit group.
pub fn is_h16(s: &str) -> (r: bool)
    ensures
        r == spec_is_h16(s@),
{
    let len = s.unicode_len();
    if len < 1 || len > 4 {
        return false;
    }
    let mut i: usize = 0;
    while i < len
        invariant
            i <= len,
            len == s@.len(),
            forall|k: int| 0 <= k < i ==> spec_is_hex_digit(#[trigger] s@[k]),
        decreases len - i,
    {
        if !is_hex_digit_char(s.get_char(i)) {
            assert(!spec_is_hex_digit(s@[i as int]));
            return false;
        }
        i = i + 1;
    }
    true
}

/// Check the tail of a group list from `from` on, handing back how many
/// 16-bit units it stands for when it is well-formed.
fn check_tail(parts: &Vec<String>, from: usize) -> (r: Option<usize>)
    requires
        from < parts@.len(),
        parts@.len() <= 16,
    ensures
        r is Some <==> spec_tail_ok(spec_views(parts@), from as int),
        r matches Some(u) ==> u == spec_tail_units(spec_views(parts@), from as int),
{
    let ghost gs = spec_views(parts@);
    let m = parts.len();
    let mut i = from;
    while i < m - 1
        invariant
            from <= i <= m - 1,
            from < m,
            m <= 16,
            m == parts@.len(),
            gs == spec_views(parts@),
            forall|k: int| from <= k < i ==> spec_is_h16(#[trigger] gs[k]),
        decreases m - i,
    {
        assert(gs[i as int] == parts@[i as int]@);
        if !is_h16(parts[i].as_str()) {
            assert(!spec_is_h16(gs[i as int]));
            return None;
        }
        i = i + 1;
    }
    assert(gs[m - 1] == parts@[m - 1]@);
    if is_h16(parts[m - 1].as_str()) {
        assert(spec_tail_ok(gs, from as int));
        Some(m - from)
    } else if is_ipv4(parts[m - 1].as_str()) {
        assert(spec_tail_ok(gs, from as int));
        Some(m - 1 - from + 2)
    } else {
        assert(!spec_tail_ok(gs, from as int));
        None
    }
}

/// Whether `s` is IPv6 text.
pub fn is_ipv6(s: &str) -> (r: bool)
    ensures
        r == spec_is_ipv6(s@),
{
    let parts = split_char(s, ':');
    let ghost gs = spec_split(s@, ':');
    let m = parts.len();
    if m >= 10 {
        proof {
            assert forall|i2: int| !spec_mid_compressed_at(gs, i2) by {
                if spec_mid_compressed_at(gs, i2) {
                    assert(i2 + spec_tail_units(gs, i2 + 1) >= m - 1);
                }
            }
            assert(!spec_is_ipv6(s@));
        }
        return false;
    }
    if m == 3 && parts[0].as_str().is_empty() && parts[1].as_str().is_empty()
        && parts[2].as_str().is_empty() {
        assert(gs[0] == parts@[0]@ && gs[1] == parts@[1]@ && gs[2] == parts@[2]@);
        return true;
    }
    assert(gs[0] == parts@[0]@);
    if parts[0].as_str().is_empty() {
        // a leading `::`
        if m < 3 {
            return false;
        }
        assert(gs[1] == parts@[1]@);
        if !parts[1].as_str().is_empty() {
            return false;
        }
        match check_tail(&parts, 2) {
            Some(u) => u <= 7,
            None => false,
        }
    } else {
        assert(gs[m - 1] == parts@[m - 1]@);
        if parts[m - 1].as_str().is_empty() {
            // a trailing `::`
            if m < 3 {
                return false;
            }
            assert(gs[m - 2] == parts@[m - 2]@);
            if !parts[m - 2].as_str().is_empty() {
                return false;
            }
            if m - 2 > 7 {
                return false;
            }
            let mut i: usize = 0;
            while i < m - 2
                invariant
                    i <= m - 2,
                    3 <= m == parts@.len(),
                    gs == spec_split(s@, ':'),
                    gs == spec_views(parts@),
                    gs[0].len() > 0,
                    gs[m - 1].len() == 0,
                    forall|k: int| 0 <= k < i ==> spec_is_h16(#[trigger] gs[k]),
                decreases m - i,
            {
                assert(gs[i as int] == parts@[i as int]@);
                if !is_h16(parts[i].as_str()) {
                    assert(!spec_is_h16(gs[i as int]));
                    return false;
                }
                i = i + 1;
            }
            true
        } else {
            // neither end is empty: look for a `::` in the middle
            let mut first_empty: usize = 0;
            let mut i: usize = 1;
            while i < m - 1 && first_empty == 0
                invariant
                    1 <= i <= m,
                    m == parts@.len(),
                    gs == spec_split(s@, ':'),
                    gs == spec_views(parts@),
                    first_empty == 0 ==> forall|k: int|
                        1 <= k < i ==> (#[trigger] gs[k]).len() > 0,
                    first_empty != 0 ==> 0 < first_empty < m - 1 && gs[
                        first_empty as int
                    ].len() == 0 && (forall|k: int|
                        1 <= k < first_empty ==> (#[trigger] gs[k]).len() > 0),
                decreases m - i,
            {
                assert(gs[i as int] == parts@[i as int]@);
                if parts[i].as_str().is_empty() {
                    first_empty = i;
                }
                i = i + 1;
            }
            if first_empty == 0 {
                // no compression: the groups must stand for exactly
                // eight units
                proof {
                    assert forall|i2: int| !spec_mid_compressed_at(gs, i2) by {
                        if spec_mid_compressed_at(gs, i2) {
                            assert(gs[i2].len() == 0);
                        }
                    }
                }
                match check_tail(&parts, 0) {
                    Some(u) => u == 8,
                    None => false,
                }
            } else {
                let fe = first_empty;
                // the groups left of the compression must be 16-bit
                // groups throughout
                let mut j: usize = 0;
                while j < fe
                    invariant
                        j <= fe,
                        0 < fe < m - 1,
                        m == parts@.len(),
                        gs == spec_split(s@, ':'),
                        gs == spec_views(parts@),
                        gs[fe as int].len() == 0,
                        forall|k: int| 1 <= k < fe ==> (#[trigger] gs[k]).len() > 0,
                        gs[0].len() > 0,
                        gs[m - 1].len() > 0,
                        forall|k: int| 0 <= k < j ==> spec_is_h16(#[trigger] gs[k]),
                    decreases fe - j,
                {
                    assert(gs[j as int] == parts@[j as int]@);
                    if !is_h16(parts[j].as_str()) {
                        proof {
                            lemma_mid_unique(gs, fe as int, j as int);
                            assert(!spec_is_ipv6(s@));
                        }
                        return false;
                    }
                    j = j + 1;
                }
                match check_tail(&parts, fe + 1) {
                    Some(u) => {
                        if fe <= 7 && u <= 7 - fe {
                            assert(spec_mid_compressed_at(gs, fe as int));
                            true
                        } else {
                            proof {
                                lemma_mid_unique(gs, fe as int, -1);
                                assert(!spec_is_ipv6(s@));
                            }
                            false
                        }
                    },
                    None => {
                        proof {
                            lemma_mid_unique(gs, fe as int, -1);
                            assert(!spec_is_ipv6(s@));
                        }
                        false
                    },
                }
            }
        }
    }
}

/// When the first empty group `fe` sits strictly inside the list, no
/// other place can carry a valid compression; and if the groups left of
/// `fe` fail at `bad` — or `fe`'s own tail or unit count fails, signalled
/// by a negative `bad` — then no place at all can.
proof fn lemma_mid_unique(gs: Seq<Seq<char>>, fe: int, bad: int)
    requires
        0 < fe < gs.len() - 1,
        gs[fe].len() == 0,
        forall|k: int| 1 <= k < fe ==> (#[trigger] gs[k]).len() > 0,
        gs[0].len() > 0,
        bad >= 0 ==> 0 <= bad < fe && !spec_is_h16(gs[bad]),
        bad < 0 ==> !(spec_tail_ok(gs, fe + 1) && fe + spec_tail_units(gs, fe + 1) <= 7),
    ensures
        forall|i2: int| !spec_mid_compressed_at(gs, i2),
        !(spec_tail_ok(gs, 0) && spec_tail_units(gs, 0) == 8),
{
    assert forall|i2: int| !spec_mid_compressed_at(gs, i2) by {
        if spec_mid_compressed_at(gs, i2) {
            if i2 < fe {
                assert(gs[i2].len() == 0);
                assert(false);
            } else if i2 == fe {
                if bad >= 0 {
                    assert(spec_is_h16(gs[bad]));
                    assert(false);
                } else {
                    assert(false);
                }
            } else {
                assert(spec_is_h16(gs[fe]));
                assert(false);
            }
        }
    }
    assert(!spec_is_h16(gs[fe]));
    assert(!spec_tail_ok(gs, 0));
}

/// Valid IP address text: IPv4 or IPv6.
pub open spec fn spec_is_ip(s: Seq<char>) -> bool {
    spec_is_ipv4(s) || spec_is_ipv6(s)
}

/// Whether `s` is valid IP address text, IPv4 or IPv6.
pub fn is_ip_address(s: &str) -> (r: bool)
    ensures
        r == spec_is_ip(s@),
{
    if is_ipv4(s) {
        true
    } else {
        is_ipv6(s)
    }
}

} // verus!
