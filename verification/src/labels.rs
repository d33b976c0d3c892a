//! Choice codec: the bidirectional mapping between a zero-based choice index
//! and its spreadsheet-style letter label (`A..Z`, `AA..AZ`, ...), and the
//! display text that lists a choice set one `LABEL. choice` line at a time.

use vstd::prelude::*;

verus! {

/// The letter standing for one base-26 digit (0 is `A`, 25 is `Z`).
pub open spec fn spec_letter(d: int) -> char {
    ((65 + d) as u8) as char
}

/// Spreadsheet-style label of a zero-based index: 1-indexed bijective
/// base 26, so 0 is `A`, 25 is `Z`, 26 is `AA`, 701 is `ZZ`.
pub open spec fn spec_label(i: nat) -> Seq<char>
    decreases i,
{
    if i < 26 {
        seq![spec_letter(i as int)]
    } else {
        spec_label((i / 26 - 1) as nat) + seq![spec_letter((i % 26) as int)]
    }
}

/// A character a label may consist of: an ASCII capital letter.
pub open spec fn is_label_char(c: char) -> bool {
    65 <= c as int <= 90
}

/// A well-formed label: non-empty, capital letters only.
pub open spec fn label_wf(s: Seq<char>) -> bool {
    s.len() > 0 && forall|k: int| 0 <= k < s.len() ==> is_label_char(#[trigger] s[k])
}

/// Numeric value of a label read as 1-indexed base 26: `A` is 1, `Z` is 26,
/// `AA` is 27.  `spec_label(i)` has value `i + 1`.
pub open spec fn label_num(s: Seq<char>) -> int
    decreases s.len(),
{
    if s.len() == 0 {
        0
    } else {
        label_num(s.drop_last()) * 26 + (s.last() as int - 64)
    }
}

/// A label made of capital letters has a positive value.
pub proof fn lemma_label_num_pos(s: Seq<char>)
    requires
        forall|k: int| 0 <= k < s.len() ==> is_label_char(#[trigger] s[k]),
    ensures
        label_num(s) >= 0,
        s.len() > 0 ==> label_num(s) >= 1,
    decreases s.len(),
{
    if s.len() > 0 {
        lemma_label_num_pos(s.drop_last());
    }
}

/// Extending a label can only raise its value: the value of any prefix is a
/// lower bound for the value of the whole.
pub proof fn lemma_label_num_prefix_le(s: Seq<char>, m: int)
    requires
        forall|k: int| 0 <= k < s.len() ==> is_label_char(#[trigger] s[k]),
        0 <= m <= s.len(),
    ensures
        label_num(s.take(m)) <= label_num(s),
    decreases s.len() - m,
{
    if m == s.len() {
        assert(s.take(m) =~= s);
    } else {
        lemma_label_num_prefix_le(s, m + 1);
        let t = s.take(m + 1);
        assert(t.drop_last() =~= s.take(m));
        assert(t.last() == s[m]);
        lemma_label_num_pos(s.take(m));
        assert(label_num(t) == label_num(s.take(m)) * 26 + (s[m] as int - 64));
        assert(label_num(s.take(m)) <= label_num(t)) by (nonlinear_arith)
            requires
                label_num(t) == label_num(s.take(m)) * 26 + (s[m] as int - 64),
                label_num(s.take(m)) >= 0,
                1 <= s[m] as int - 64,
        {}
    }
}

/// Round trip from index to label and back: the label of `i` is well formed
/// and its value is `i + 1`.
pub proof fn lemma_label_round_trip(i: nat)
    ensures
        label_wf(spec_label(i)),
        label_num(spec_label(i)) == i + 1,
    decreases i,
{
    if i < 26 {
        reveal_with_fuel(label_num, 3);
        assert(spec_label(i) =~= seq![spec_letter(i as int)]);
        assert(spec_label(i).drop_last() =~= Seq::<char>::empty());
        assert(spec_letter(i as int) as int == 65 + i);
        assert(label_num(spec_label(i)) == spec_label(i).last() as int - 64);
    } else {
        let j = (i / 26 - 1) as nat;
        lemma_label_round_trip(j);
        let s = spec_label(i);
        assert(s =~= spec_label(j) + seq![spec_letter((i % 26) as int)]);
        assert(s.drop_last() =~= spec_label(j));
        assert(s.last() == spec_letter((i % 26) as int));
        assert(spec_letter((i % 26) as int) as int == 65 + i % 26);
        assert(label_num(s) == (j + 1) * 26 + (i % 26 + 1));
        assert((i / 26) * 26 + i % 26 == i) by (nonlinear_arith)
            requires
                i >= 26,
        {}
    }
}

/// Two distinct indices never share a label.
pub proof fn lemma_label_injective(i: nat, j: nat)
    requires
        spec_label(i) == spec_label(j),
    ensures
        i == j,
{
    lemma_label_round_trip(i);
    lemma_label_round_trip(j);
}

/// Round trip from label to index and back: a well-formed label is the label
/// of exactly the index one below its value.
pub proof fn lemma_label_of_num(s: Seq<char>)
    requires
        label_wf(s),
    ensures
        label_num(s) >= 1,
        spec_label((label_num(s) - 1) as nat) == s,
    decreases s.len(),
{
    lemma_label_num_pos(s);
    let d = s.last() as int - 64;
    if s.len() == 1 {
        reveal_with_fuel(label_num, 3);
        assert(s =~= seq![s[0]]);
        assert(s.drop_last() =~= Seq::<char>::empty());
        assert(label_num(s) == d);
        assert(spec_label((d - 1) as nat) =~= seq![spec_letter(d - 1)]);
        assert(spec_letter(d - 1) == s[0]);
        assert(spec_label((label_num(s) - 1) as nat) =~= s);
    } else {
        let p = s.drop_last();
        assert(forall|k: int| 0 <= k < p.len() ==> is_label_char(#[trigger] p[k]));
        lemma_label_of_num(p);
        let np = label_num(p);
        let i = np * 26 + d - 1;
        assert(label_num(s) == np * 26 + d);
        assert(i >= 26) by (nonlinear_arith)
            requires
                i == np * 26 + (d - 1),
                np >= 1,
                1 <= d <= 26,
        {}
        assert(i / 26 == np && i % 26 == d - 1) by (nonlinear_arith)
            requires
                i == np * 26 + (d - 1),
                0 <= d - 1 < 26,
                np >= 1,
        {}
        assert(spec_label(i as nat) =~= spec_label((np - 1) as nat) + seq![spec_letter(d - 1)]);
        assert(spec_letter(d - 1) == s.last());
        assert(spec_label((np - 1) as nat) == p);
        assert(spec_label(i as nat) =~= s);
    }
}

/// The one-letter string for a base-26 digit.
fn letter_str(d: u8) -> (r: &'static str)
    requires
        d < 26,
    ensures
        r@ == seq![spec_letter(d as int)],
{
    proof {
        reveal_strlit("A"); reveal_strlit("B"); reveal_strlit("C");
        reveal_strlit("D"); reveal_strlit("E"); reveal_strlit("F");
        reveal_strlit("G"); reveal_strlit("H"); reveal_strlit("I");
        reveal_strlit("J"); reveal_strlit("K"); reveal_strlit("L");
        reveal_strlit("M"); reveal_strlit("N"); reveal_strlit("O");
        reveal_strlit("P"); reveal_strlit("Q"); reveal_strlit("R");
        reveal_strlit("S"); reveal_strlit("T"); reveal_strlit("U");
        reveal_strlit("V"); reveal_strlit("W"); reveal_strlit("X");
        reveal_strlit("Y"); reveal_strlit("Z");
        assert("A"@ =~= seq![spec_letter(0)]);
        assert("B"@ =~= seq![spec_letter(1)]);
        assert("C"@ =~= seq![spec_letter(2)]);
        assert("D"@ =~= seq![spec_letter(3)]);
        assert("E"@ =~= seq![spec_letter(4)]);
        assert("F"@ =~= seq![spec_letter(5)]);
        assert("G"@ =~= seq![spec_letter(6)]);
        assert("H"@ =~= seq![spec_letter(7)]);
        assert("I"@ =~= seq![spec_letter(8)]);
        assert("J"@ =~= seq![spec_letter(9)]);
        assert("K"@ =~= seq![spec_letter(10)]);
        assert("L"@ =~= seq![spec_letter(11)]);
        assert("M"@ =~= seq![spec_letter(12)]);
        assert("N"@ =~= seq![spec_letter(13)]);
        assert("O"@ =~= seq![spec_letter(14)]);
        assert("P"@ =~= seq![spec_letter(15)]);
        assert("Q"@ =~= seq![spec_letter(16)]);
        assert("R"@ =~= seq![spec_letter(17)]);
        assert("S"@ =~= seq![spec_letter(18)]);
        assert("T"@ =~= seq![spec_letter(19)]);
        assert("U"@ =~= seq![spec_letter(20)]);
        assert("V"@ =~= seq![spec_letter(21)]);
        assert("W"@ =~= seq![spec_letter(22)]);
        assert("X"@ =~= seq![spec_letter(23)]);
        assert("Y"@ =~= seq![spec_letter(24)]);
        assert("Z"@ =~= seq![spec_letter(25)]);
    }
    match d {
        0 => "A", 1 => "B", 2 => "C", 3 => "D", 4 => "E", 5 => "F",
        6 => "G", 7 => "H", 8 => "I", 9 => "J", 10 => "K", 11 => "L",
        12 => "M", 13 => "N", 14 => "O", 15 => "P", 16 => "Q", 17 => "R",
        18 => "S", 19 => "T", 20 => "U", 21 => "V", 22 => "W", 23 => "X",
        24 => "Y", _ => "Z",
    }
}

/// The label a sequence of base-26 digits spells, least significant digit
/// first (the order a conversion loop produces them in).
pub open spec fn rev_letters(digs: Seq<u8>) -> Seq<char> {
    Seq::new(digs.len(), |k: int| spec_letter(digs[digs.len() - 1 - k] as int))
}

/// Label of a zero-based choice index, per the spreadsheet column naming:
/// `index_to_alpha(0)` is `"A"`, 25 gives `"Z"`, 26 gives `"AA"`.
pub fn index_to_alpha(index: usize) -> (r: String)
    ensures
        r@ == spec_label(index as nat),
{
    let mut digs: Vec<u8> = Vec::new();
    let mut i: usize = index;
    loop
        invariant_except_break
            spec_label(index as nat) =~= spec_label(i as nat) + rev_letters(digs@),
            forall|k: int| 0 <= k < digs@.len() ==> #[trigger] digs@[k] < 26,
        ensures
            spec_label(index as nat) =~= rev_letters(digs@),
            forall|k: int| 0 <= k < digs@.len() ==> #[trigger] digs@[k] < 26,
        decreases i,
    {
        let d: u8 = (i % 26) as u8;
        proof {
            let ghost old_digs = digs@;
            assert(rev_letters(old_digs.push(d)) =~= seq![spec_letter(d as int)] + rev_letters(
                old_digs,
            ));
        }
        digs.push(d);
        if i < 26 {
            proof {
                assert(spec_label(i as nat) =~= seq![spec_letter(d as int)]);
            }
            break;
        }
        proof {
            assert(spec_label(i as nat) =~= spec_label((i / 26 - 1) as nat) + seq![spec_letter(
                d as int,
            )]);
        }
        i = i / 26 - 1;
    }
    let n = digs.len();
    let mut out = String::new();
    let mut k: usize = n;
    while k > 0
        invariant
            n == digs@.len(),
            k <= n,
            spec_label(index as nat) =~= rev_letters(digs@),
            forall|j: int| 0 <= j < digs@.len() ==> #[trigger] digs@[j] < 26,
            out@ =~= rev_letters(digs@).take(n - k),
        decreases k,
    {
        k = k - 1;
        let s = letter_str(digs[k]);
        out.append(s);
        proof {
            let full = rev_letters(digs@);
            assert(full[n - k - 1] == spec_letter(digs@[k as int] as int));
            assert(full.take(n - k) =~= full.take(n - k - 1) + seq![full[n - k - 1]]);
        }
    }
    proof {
        assert(rev_letters(digs@).take(n as int) =~= rev_letters(digs@));
    }
    out
}

/// One displayed line of a choice listing: the label, a dot, a space, the
/// choice text.
pub open spec fn choice_line(i: nat, c: Seq<char>) -> Seq<char> {
    spec_label(i) + ". "@ + c
}

/// The display text of an ordered choice set: one labelled line per choice,
/// in input order, joined by newlines.
pub open spec fn choices_display(cs: Seq<Seq<char>>) -> Seq<char>
    decreases cs.len(),
{
    if cs.len() == 0 {
        Seq::empty()
    } else if cs.len() == 1 {
        choice_line(0, cs[0])
    } else {
        choices_display(cs.drop_last()) + "\n"@ + choice_line((cs.len() - 1) as nat, cs.last())
    }
}

/// Renders a choice set for the classification prompt.  Label assignment is
/// purely positional; duplicate choices keep their own lines and labels.
pub fn display_choices(choices: &Vec<String>) -> (r: String)
    ensures
        r@ == choices_display(choices.deep_view()),
{
    let mut out = String::new();
    let n = choices.len();
    let mut i: usize = 0;
    while i < n
        invariant
            n == choices@.len(),
            i <= n,
            out@ =~= choices_display(choices.deep_view().take(i as int)),
        decreases n - i,
    {
        if i > 0 {
            out.append("\n");
        }
        let label = index_to_alpha(i);
        out.append(label.as_str());
        out.append(". ");
        out.append(choices[i].as_str());
        proof {
            let cs = choices.deep_view();
            let t = cs.take(i + 1);
            assert(cs[i as int] == choices@[i as int]@);
            assert(t.last() == cs[i as int]);
            assert(t.drop_last() =~= cs.take(i as int));
            if i == 0 {
                assert(out@ =~= choice_line(0, cs[0]));
                assert(choices_display(t) == choice_line(0, t[0]));
            } else {
                assert(choices_display(t) == choices_display(t.drop_last()) + "\n"@ + choice_line(
                    i as nat,
                    t.last(),
                ));
                assert(out@ =~= choices_display(cs.take(i as int)) + "\n"@ + choice_line(
                    i as nat,
                    cs[i as int],
                ));
            }
        }
        i = i + 1;
    }
    proof {
        assert(choices.deep_view().take(n as int) =~= choices.deep_view());
    }
    out
}

/// Decodes a label back to the zero-based index whose label it is.  Returns
/// `None` for anything the forward mapping cannot produce: the empty string,
/// a string with characters outside `A..Z`, or a label whose value does not
/// fit a `usize`.
pub fn label_to_index(label: &str) -> (r: Option<usize>)
    ensures
        r is Some <==> label_wf(label@) && label_num(label@) <= usize::MAX,
        r is Some ==> r.unwrap() as int == label_num(label@) - 1,
{
    let n = label.unicode_len();
    if n == 0 {
        return None;
    }
    let mut acc: usize = 0;
    let mut j: usize = 0;
    while j < n
        invariant
            n == label@.len(),
            j <= n,
            forall|k: int| 0 <= k < j ==> is_label_char(#[trigger] label@[k]),
            acc as int == label_num(label@.take(j as int)),
        decreases n - j,
    {
        let c = label.get_char(j);
        let u = c as u32;
        if u < 65 || u > 90 {
            return None;
        }
        let d: usize = (u - 65) as usize;
        proof {
            let t = label@.take(j + 1);
            assert(t.drop_last() =~= label@.take(j as int));
            assert(t.last() == label@[j as int]);
            assert(label_num(t) == acc * 26 + (d + 1));
        }
        if acc > (usize::MAX - (d + 1)) / 26 {
            proof {
                let t = label@.take(j + 1);
                lemma_mul_div_bound(acc as int, d + 1);
                assert(label_num(t) > usize::MAX);
                if label_wf(label@) {
                    lemma_label_num_prefix_le(label@, j + 1);
                    assert(label_num(label@) > usize::MAX);
                }
            }
            return None;
        }
        acc = acc * 26 + (d + 1);
        j = j + 1;
    }
    proof {
        assert(label@.take(n as int) =~= label@);
        lemma_label_num_pos(label@);
    }
    Some(acc - 1)
}

/// If `a > (M - b) / 26` with `1 <= b <= 26`, then `a * 26 + b` exceeds `M`:
/// the guard an accumulator uses before one more base-26 step.
proof fn lemma_mul_div_bound(a: int, b: int)
    requires
        a >= 0,
        1 <= b <= 26,
        a > (usize::MAX - b) / 26,
    ensures
        a * 26 + b > usize::MAX,
{
    let m = usize::MAX as int;
    assert(a >= (m - b) / 26 + 1);
    assert(((m - b) / 26) * 26 + (m - b) % 26 == m - b) by (nonlinear_arith)
        requires
            m - b >= 0,
    {}
    assert(a * 26 >= ((m - b) / 26 + 1) * 26) by (nonlinear_arith)
        requires
            a >= (m - b) / 26 + 1,
    {}
    assert(((m - b) / 26 + 1) * 26 == ((m - b) / 26) * 26 + 26) by (nonlinear_arith) {}
}

} // verus!
