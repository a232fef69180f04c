//! HTML escaping for text, code and attribute content.

use vstd::prelude::*;

verus! {

/// The characters that must not appear verbatim in escaped HTML content.
pub open spec fn is_html_special(c: char) -> bool {
    c == '&' || c == '<' || c == '>' || c == '"' || c == '\''
}

/// What a single character becomes in escaped HTML content: each special
/// character becomes its entity, every other character stays itself.
pub open spec fn escape_char(c: char) -> Seq<char> {
    if c == '&' {
        "&amp;"@
    } else if c == '<' {
        "&lt;"@
    } else if c == '>' {
        "&gt;"@
    } else if c == '"' {
        "&quot;"@
    } else if c == '\'' {
        "&#x27;"@
    } else {
        seq![c]
    }
}

/// HTML-escaped form of a string: each character replaced by `escape_char`.
pub open spec fn spec_escape(s: Seq<char>) -> Seq<char>
    decreases s.len(),
{
    if s.len() == 0 {
        Seq::empty()
    } else {
        escape_char(s[0]) + spec_escape(s.drop_first())
    }
}

/// Escapes the HTML special characters `& < > " '` in `s`, leaving every
/// other character unchanged.
pub fn escape_html(s: &str) -> (r: String)
    ensures
        r@ == spec_escape(s@),
{
    let len = s.unicode_len();
    let mut r = String::new();
    let mut i: usize = 0;
    while i < len
        invariant
            i <= len,
            len == s@.len(),
            r@ == spec_escape(s@.take(i as int)),
        decreases len - i,
    {
        let c = s.get_char(i);
        match c {
            '&' => r.append("&amp;"),
            '<' => r.append("&lt;"),
            '>' => r.append("&gt;"),
            '"' => r.append("&quot;"),
            '\'' => r.append("&#x27;"),
            _ => r.append(char_to_string(c).as_str()),
        }
        proof {
            lemma_spec_escape_take_step(s@, i as int);
        }
        i = i + 1;
    }
    proof {
        assert(s@.take(len as int) =~= s@);
    }
    r
}

/// Appending one character to the input appends its escaped form to the output.
proof fn lemma_spec_escape_take_step(s: Seq<char>, i: int)
    requires
        0 <= i < s.len(),
    ensures
        spec_escape(s.take(i + 1)) == spec_escape(s.take(i)) + escape_char(s[i]),
{
    lemma_spec_escape_snoc(s.take(i + 1));
    assert(s.take(i + 1).drop_last() =~= s.take(i));
    assert(s.take(i + 1).last() == s[i]);
}

/// Escaping distributes over removing the last character.
proof fn lemma_spec_escape_snoc(s: Seq<char>)
    requires
        s.len() > 0,
    ensures
        spec_escape(s) == spec_escape(s.drop_last()) + escape_char(s.last()),
    decreases s.len(),
{
    if s.len() == 1 {
        assert(s.drop_last() =~= Seq::<char>::empty());
        assert(s.drop_first() =~= Seq::<char>::empty());
        assert(spec_escape(Seq::<char>::empty()) == Seq::<char>::empty());
        assert(s[0] == s.last());
        assert(spec_escape(s) =~= escape_char(s[0]));
        assert(spec_escape(s.drop_last()) + escape_char(s.last()) =~= escape_char(s[0]));
    } else {
        lemma_spec_escape_snoc(s.drop_first());
        assert(s.drop_first().drop_last() =~= s.drop_last().drop_first());
        assert(s.drop_first().last() == s.last());
        assert(s.drop_last()[0] == s[0]);
        assert(s.drop_last().len() > 0);
        assert(spec_escape(s) == escape_char(s[0]) + spec_escape(s.drop_first()));
        assert(spec_escape(s.drop_first()) == spec_escape(s.drop_first().drop_last())
            + escape_char(s.last()));
        assert(spec_escape(s.drop_last()) == escape_char(s[0]) + spec_escape(
            s.drop_last().drop_first(),
        ));
        assert(spec_escape(s) =~= spec_escape(s.drop_last()) + escape_char(s.last()));
    }
}

/// A one-character string.
pub fn char_to_string(c: char) -> (r: String)
    ensures
        r@ == seq![c],
{
    let mut r = String::new();
    push_char(&mut r, c);
    proof {
        assert(r@ =~= seq![c]);
    }
    r
}

/// Relies on `String::push`: appends one character to the string.
#[verifier::external_body]
pub(crate) fn push_char(s: &mut String, c: char)
    ensures
        final(s)@ == old(s)@.push(c),
{
    s.push(c);
}

/// How many characters of `s` are HTML special characters.
pub open spec fn count_specials(s: Seq<char>) -> int
    decreases s.len(),
{
    if s.len() == 0 {
        0
    } else {
        count_specials(s.drop_first()) + if is_html_special(s[0]) {
            1int
        } else {
            0int
        }
    }
}

/// How many ampersands a string holds.
pub open spec fn count_amps(s: Seq<char>) -> int
    decreases s.len(),
{
    if s.len() == 0 {
        0
    } else {
        count_amps(s.drop_first()) + if s[0] == '&' {
            1int
        } else {
            0int
        }
    }
}

/// Counting ampersands distributes over concatenation.
proof fn lemma_count_amps_add(a: Seq<char>, b: Seq<char>)
    ensures
        count_amps(a + b) == count_amps(a) + count_amps(b),
    decreases a.len(),
{
    if a.len() == 0 {
        assert(a + b =~= b);
    } else {
        lemma_count_amps_add(a.drop_first(), b);
        assert((a + b).drop_first() =~= a.drop_first() + b);
        assert((a + b)[0] == a[0]);
    }
}

/// Every escape entity begins with exactly one ampersand and holds no other.
proof fn lemma_escape_char_amps(c: char)
    ensures
        count_amps(escape_char(c)) == if is_html_special(c) {
            1int
        } else {
            0int
        },
{
    if c == '&' {
        reveal_strlit("&amp;");
        lemma_count_amps_literal(escape_char(c));
    } else if c == '<' {
        reveal_strlit("&lt;");
        lemma_count_amps_literal(escape_char(c));
    } else if c == '>' {
        reveal_strlit("&gt;");
        lemma_count_amps_literal(escape_char(c));
    } else if c == '"' {
        reveal_strlit("&quot;");
        lemma_count_amps_literal(escape_char(c));
    } else if c == '\'' {
        reveal_strlit("&#x27;");
        lemma_count_amps_literal(escape_char(c));
    } else {
        assert(escape_char(c) =~= seq![c]);
        assert(count_amps(seq![c].drop_first()) == 0) by {
            assert(seq![c].drop_first() =~= Seq::<char>::empty());
        }
    }
}

/// An entity of known characters whose first character is `&` and whose
/// remaining characters are not `&` holds exactly one ampersand.
proof fn lemma_count_amps_literal(s: Seq<char>)
    requires
        s.len() >= 1,
        s[0] == '&',
        forall|i: int| 1 <= i < s.len() ==> s[i] != '&',
    ensures
        count_amps(s) == 1,
{
    assert forall|i: int| 0 <= i < s.drop_first().len() implies s.drop_first()[i] != '&' by {
        assert(s.drop_first()[i] == s[i + 1]);
    }
    lemma_count_amps_none(s.drop_first());
}

/// A string without ampersands has an ampersand count of zero.
proof fn lemma_count_amps_none(s: Seq<char>)
    requires
        forall|i: int| 0 <= i < s.len() ==> s[i] != '&',
    ensures
        count_amps(s) == 0,
    decreases s.len(),
{
    if s.len() > 0 {
        assert forall|i: int| 0 <= i < s.drop_first().len() implies s.drop_first()[i] != '&' by {
            assert(s.drop_first()[i] == s[i + 1]);
        }
        lemma_count_amps_none(s.drop_first());
    }
}

/// Each occurrence of a special character in the input is escaped exactly
/// once: the escaped output holds exactly one ampersand per special input
/// character — one for each entity that replaced one — and no others.
pub proof fn lemma_escape_exactly_once(s: Seq<char>)
    ensures
        count_amps(spec_escape(s)) == count_specials(s),
    decreases s.len(),
{
    if s.len() > 0 {
        lemma_escape_exactly_once(s.drop_first());
        lemma_count_amps_add(escape_char(s[0]), spec_escape(s.drop_first()));
        lemma_escape_char_amps(s[0]);
    }
}

} // verus!
