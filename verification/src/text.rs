//! Verified text utilities: whitespace trimming, line-ending stripping,
//! marker removal, comma splitting and path-segment extraction.
//!
//! Every executable function is specified exactly against a spec function
//! over sequences of characters.

use vstd::prelude::*;

verus! {

/// The whitespace characters recognized when trimming tag and field text.
pub open spec fn is_ws(c: char) -> bool {
    c == ' ' || c == '\t' || c == '\n' || c == '\r'
}

fn is_ws_exec(c: char) -> (r: bool)
    ensures
        r == is_ws(c),
{
    c == ' ' || c == '\t' || c == '\n' || c == '\r'
}

/// The sequence with leading whitespace removed.
pub open spec fn trim_left(s: Seq<char>) -> Seq<char>
    decreases s.len(),
{
    if s.len() > 0 && is_ws(s.first()) {
        trim_left(s.drop_first())
    } else {
        s
    }
}

/// The sequence with trailing whitespace removed.
pub open spec fn trim_right(s: Seq<char>) -> Seq<char>
    decreases s.len(),
{
    if s.len() > 0 && is_ws(s.last()) {
        trim_right(s.drop_last())
    } else {
        s
    }
}

/// The sequence with leading and trailing whitespace removed.
pub open spec fn trim_spec(s: Seq<char>) -> Seq<char> {
    trim_right(trim_left(s))
}

/// Removes leading and trailing whitespace.
pub fn trim(s: &str) -> (r: String)
    ensures
        r@ == trim_spec(s@),
{
    let n = s.unicode_len();
    let mut a: usize = 0;
    proof {
        assert(s@.skip(0) =~= s@);
    }
    while a < n && is_ws_exec(s.get_char(a))
        invariant
            0 <= a <= n,
            n == s@.len(),
            trim_left(s@) == trim_left(s@.skip(a as int)),
        decreases n - a,
    {
        proof {
            assert(s@.skip(a as int).drop_first() =~= s@.skip(a as int + 1));
        }
        a = a + 1;
    }
    proof {
        if a < n {
            assert(s@.skip(a as int).first() == s@[a as int]);
        }
        assert(trim_left(s@) =~= s@.skip(a as int));
    }
    let mut b: usize = n;
    while b > a && is_ws_exec(s.get_char(b - 1))
        invariant
            a <= b <= n,
            n == s@.len(),
            trim_left(s@) == s@.skip(a as int),
            trim_right(trim_left(s@)) == trim_right(s@.subrange(a as int, b as int)),
        decreases b,
    {
        proof {
            assert(s@.subrange(a as int, b as int).last() == s@[b as int - 1]);
            assert(s@.subrange(a as int, b as int).drop_last() =~= s@.subrange(
                a as int,
                b as int - 1,
            ));
        }
        b = b - 1;
    }
    proof {
        if b > a {
            assert(s@.subrange(a as int, b as int).last() == s@[b as int - 1]);
        }
        assert(trim_right(s@.subrange(a as int, b as int)) =~= s@.subrange(a as int, b as int));
    }
    s.substring_char(a, b).to_owned()
}

/// The sequence with one trailing line ending (`\n`, `\r\n` or `\r`) removed.
pub open spec fn strip_eol(s: Seq<char>) -> Seq<char> {
    let s1 = if s.len() > 0 && s.last() == '\n' {
        s.drop_last()
    } else {
        s
    };
    if s1.len() > 0 && s1.last() == '\r' {
        s1.drop_last()
    } else {
        s1
    }
}

/// Removes one trailing line ending.
pub fn strip_eol_exec(s: &str) -> (r: String)
    ensures
        r@ == strip_eol(s@),
{
    let n = s.unicode_len();
    let n1 = if n > 0 && s.get_char(n - 1) == '\n' {
        n - 1
    } else {
        n
    };
    let n2 = if n1 > 0 && s.get_char(n1 - 1) == '\r' {
        n1 - 1
    } else {
        n1
    };
    proof {
        assert(strip_eol(s@) =~= s@.subrange(0, n2 as int));
    }
    s.substring_char(0, n2).to_owned()
}

/// A space or tab, as found between a block marker and its text.
pub open spec fn is_marker_space(c: char) -> bool {
    c == ' ' || c == '\t'
}

/// A decimal digit, as found in an ordered-list marker.
pub open spec fn is_digit_char(c: char) -> bool {
    '0' <= c && c <= '9'
}

/// The sequence with its leading run of `#` removed.
pub open spec fn drop_leading_hashes(s: Seq<char>) -> Seq<char>
    decreases s.len(),
{
    if s.len() > 0 && s.first() == '#' {
        drop_leading_hashes(s.drop_first())
    } else {
        s
    }
}

/// The sequence with its leading run of spaces and tabs removed.
pub open spec fn drop_leading_spaces(s: Seq<char>) -> Seq<char>
    decreases s.len(),
{
    if s.len() > 0 && is_marker_space(s.first()) {
        drop_leading_spaces(s.drop_first())
    } else {
        s
    }
}

/// The sequence with its leading run of digits removed.
pub open spec fn drop_leading_digits(s: Seq<char>) -> Seq<char>
    decreases s.len(),
{
    if s.len() > 0 && is_digit_char(s.first()) {
        drop_leading_digits(s.drop_first())
    } else {
        s
    }
}

/// The sequence with its trailing run of `=` and `-` (a setext heading's
/// underline) removed.
pub open spec fn drop_trailing_underline(s: Seq<char>) -> Seq<char>
    decreases s.len(),
{
    if s.len() > 0 && (s.last() == '=' || s.last() == '-') {
        drop_trailing_underline(s.drop_last())
    } else {
        s
    }
}

fn skip_hashes(s: &str, from: usize, n: usize) -> (k: usize)
    requires
        n == s@.len(),
        from <= n,
    ensures
        from <= k <= n,
        s@.skip(k as int) == drop_leading_hashes(s@.skip(from as int)),
{
    let mut k: usize = from;
    while k < n && s.get_char(k) == '#'
        invariant
            from <= k <= n,
            n == s@.len(),
            drop_leading_hashes(s@.skip(from as int)) == drop_leading_hashes(s@.skip(k as int)),
        decreases n - k,
    {
        proof {
            assert(s@.skip(k as int).first() == s@[k as int]);
            assert(s@.skip(k as int).drop_first() =~= s@.skip(k as int + 1));
        }
        k = k + 1;
    }
    proof {
        if k < n {
            assert(s@.skip(k as int).first() == s@[k as int]);
        }
        assert(drop_leading_hashes(s@.skip(k as int)) =~= s@.skip(k as int));
    }
    k
}

fn skip_spaces(s: &str, from: usize, n: usize) -> (k: usize)
    requires
        n == s@.len(),
        from <= n,
    ensures
        from <= k <= n,
        s@.skip(k as int) == drop_leading_spaces(s@.skip(from as int)),
{
    let mut k: usize = from;
    while k < n && (s.get_char(k) == ' ' || s.get_char(k) == '\t')
        invariant
            from <= k <= n,
            n == s@.len(),
            drop_leading_spaces(s@.skip(from as int)) == drop_leading_spaces(s@.skip(k as int)),
        decreases n - k,
    {
        proof {
            assert(s@.skip(k as int).first() == s@[k as int]);
            assert(s@.skip(k as int).drop_first() =~= s@.skip(k as int + 1));
        }
        k = k + 1;
    }
    proof {
        if k < n {
            assert(s@.skip(k as int).first() == s@[k as int]);
        }
        assert(drop_leading_spaces(s@.skip(k as int)) =~= s@.skip(k as int));
    }
    k
}

fn skip_digits(s: &str, from: usize, n: usize) -> (k: usize)
    requires
        n == s@.len(),
        from <= n,
    ensures
        from <= k <= n,
        s@.skip(k as int) == drop_leading_digits(s@.skip(from as int)),
{
    let mut k: usize = from;
    while k < n && '0' <= s.get_char(k) && s.get_char(k) <= '9'
        invariant
            from <= k <= n,
            n == s@.len(),
            drop_leading_digits(s@.skip(from as int)) == drop_leading_digits(s@.skip(k as int)),
        decreases n - k,
    {
        proof {
            assert(s@.skip(k as int).first() == s@[k as int]);
            assert(s@.skip(k as int).drop_first() =~= s@.skip(k as int + 1));
        }
        k = k + 1;
    }
    proof {
        if k < n {
            assert(s@.skip(k as int).first() == s@[k as int]);
        }
        assert(drop_leading_digits(s@.skip(k as int)) =~= s@.skip(k as int));
    }
    k
}

/// A heading slice's own text. An ATX heading loses its marker: the
/// leading `#` run and the spaces after it. A setext heading has no
/// leading marker; it loses its underline line instead.
pub open spec fn heading_text(s: Seq<char>) -> Seq<char> {
    if s.len() > 0 && s.first() == '#' {
        drop_leading_spaces(drop_leading_hashes(s))
    } else {
        strip_eol(drop_trailing_underline(strip_eol(s)))
    }
}

/// Removes a heading slice's marker, as `heading_text` describes.
pub fn heading_text_exec(s: &str) -> (r: String)
    ensures
        r@ == heading_text(s@),
{
    let n = s.unicode_len();
    if n > 0 && s.get_char(0) == '#' {
        proof {
            assert(s@.skip(0) =~= s@);
        }
        let after_hashes = skip_hashes(s, 0, n);
        let k = skip_spaces(s, after_hashes, n);
        proof {
            assert(s@.skip(k as int) =~= s@.subrange(k as int, n as int));
        }
        s.substring_char(k, n).to_owned()
    } else {
        let trimmed = strip_eol_exec(s);
        let m = trimmed.as_str().unicode_len();
        let mut b: usize = m;
        proof {
            assert(trimmed@.take(m as int) =~= trimmed@);
        }
        while b > 0 && (trimmed.as_str().get_char(b - 1) == '='
            || trimmed.as_str().get_char(b - 1) == '-')
            invariant
                0 <= b <= m,
                m == trimmed@.len(),
                drop_trailing_underline(trimmed@) == drop_trailing_underline(
                    trimmed@.take(b as int),
                ),
            decreases b,
        {
            proof {
                assert(trimmed@.take(b as int).last() == trimmed@[b as int - 1]);
                assert(trimmed@.take(b as int).drop_last() =~= trimmed@.take(b as int - 1));
            }
            b = b - 1;
        }
        proof {
            if b > 0 {
                assert(trimmed@.take(b as int).last() == trimmed@[b as int - 1]);
            }
            assert(drop_trailing_underline(trimmed@.take(b as int)) =~= trimmed@.take(b as int));
            assert(trimmed@.take(m as int) =~= trimmed@);
        }
        let no_underline = trimmed.as_str().substring_char(0, b).to_owned();
        proof {
            assert(no_underline@ =~= trimmed@.take(b as int));
        }
        strip_eol_exec(no_underline.as_str())
    }
}

/// A list item slice's own text: a bullet (`-`, `*` or `+`) or an
/// ordered marker (a digit run then `.` or `)`), with the spaces after
/// it, is removed; a slice without such a marker is kept whole.
pub open spec fn item_text(s: Seq<char>) -> Seq<char> {
    if s.len() > 0 && (s.first() == '-' || s.first() == '*' || s.first() == '+') {
        drop_leading_spaces(s.drop_first())
    } else if s.len() > 0 && is_digit_char(s.first()) {
        let rest = drop_leading_digits(s);
        if rest.len() > 0 && (rest.first() == '.' || rest.first() == ')') {
            drop_leading_spaces(rest.drop_first())
        } else {
            s
        }
    } else {
        s
    }
}

/// Removes a list item slice's marker, as `item_text` describes.
pub fn item_text_exec(s: &str) -> (r: String)
    ensures
        r@ == item_text(s@),
{
    let n = s.unicode_len();
    if n > 0 && (s.get_char(0) == '-' || s.get_char(0) == '*' || s.get_char(0) == '+') {
        proof {
            assert(s@.drop_first() =~= s@.skip(1));
        }
        let k = skip_spaces(s, 1, n);
        proof {
            assert(s@.skip(k as int) =~= s@.subrange(k as int, n as int));
        }
        s.substring_char(k, n).to_owned()
    } else if n > 0 && '0' <= s.get_char(0) && s.get_char(0) <= '9' {
        proof {
            assert(s@.skip(0) =~= s@);
        }
        let d = skip_digits(s, 0, n);
        if d < n && (s.get_char(d) == '.' || s.get_char(d) == ')') {
            proof {
                assert(s@.skip(d as int).first() == s@[d as int]);
                assert(s@.skip(d as int).drop_first() =~= s@.skip(d as int + 1));
            }
            let k = skip_spaces(s, d + 1, n);
            proof {
                assert(s@.skip(k as int) =~= s@.subrange(k as int, n as int));
            }
            s.substring_char(k, n).to_owned()
        } else {
            proof {
                if d < n {
                    assert(s@.skip(d as int).first() == s@[d as int]);
                }
            }
            s.to_owned()
        }
    } else {
        s.to_owned()
    }
}

/// A block-quote slice's own text: the leading `>` and the spaces after
/// it are removed; a slice without the marker is kept whole.
pub open spec fn quote_text(s: Seq<char>) -> Seq<char> {
    if s.len() > 0 && s.first() == '>' {
        drop_leading_spaces(s.drop_first())
    } else {
        s
    }
}

/// Removes a block-quote slice's marker, as `quote_text` describes.
pub fn quote_text_exec(s: &str) -> (r: String)
    ensures
        r@ == quote_text(s@),
{
    let n = s.unicode_len();
    if n > 0 && s.get_char(0) == '>' {
        proof {
            assert(s@.drop_first() =~= s@.skip(1));
        }
        let k = skip_spaces(s, 1, n);
        proof {
            assert(s@.skip(k as int) =~= s@.subrange(k as int, n as int));
        }
        s.substring_char(k, n).to_owned()
    } else {
        s.to_owned()
    }
}

/// The parts of a sequence split at every comma; always non-empty, and
/// parts keep their original order.
pub open spec fn comma_split(s: Seq<char>) -> Seq<Seq<char>>
    decreases s.len(),
{
    if s.len() == 0 {
        seq![Seq::<char>::empty()]
    } else {
        let init = comma_split(s.drop_last());
        if s.last() == ',' {
            init + seq![Seq::<char>::empty()]
        } else {
            init.drop_last() + seq![init.last() + seq![s.last()]]
        }
    }
}

proof fn lemma_comma_split_nonempty(s: Seq<char>)
    ensures
        comma_split(s).len() > 0,
    decreases s.len(),
{
    if s.len() > 0 {
        lemma_comma_split_nonempty(s.drop_last());
    }
}

/// Splits at every comma, preserving order; an input without commas
/// yields a single part.
pub fn split_commas(s: &str) -> (r: Vec<String>)
    ensures
        r.deep_view() == comma_split(s@),
{
    let n = s.unicode_len();
    let mut parts: Vec<String> = Vec::new();
    let mut seg_start: usize = 0;
    let mut i: usize = 0;
    proof {
        assert(comma_split(s@.take(0)) =~= seq![Seq::<char>::empty()]);
        assert(s@.subrange(0, 0) =~= Seq::<char>::empty());
    }
    while i < n
        invariant
            0 <= seg_start <= i <= n,
            n == s@.len(),
            comma_split(s@.take(i as int)) == parts.deep_view() + seq![
                s@.subrange(seg_start as int, i as int),
            ],
        decreases n - i,
    {
        proof {
            assert(s@.take(i as int + 1).drop_last() =~= s@.take(i as int));
            assert(s@.take(i as int + 1).last() == s@[i as int]);
            lemma_comma_split_nonempty(s@.take(i as int));
        }
        if s.get_char(i) == ',' {
            let part = s.substring_char(seg_start, i).to_owned();
            parts.push(part);
            seg_start = i + 1;
            proof {
                assert(s@.subrange(seg_start as int, i as int + 1) =~= Seq::<char>::empty());
                assert(comma_split(s@.take(i as int + 1)) =~= parts.deep_view() + seq![
                    s@.subrange(seg_start as int, i as int + 1),
                ]);
            }
        } else {
            proof {
                let prev = parts.deep_view() + seq![s@.subrange(seg_start as int, i as int)];
                assert(prev.drop_last() =~= parts.deep_view());
                assert(prev.last() == s@.subrange(seg_start as int, i as int));
                assert(s@.subrange(seg_start as int, i as int) + seq![s@[i as int]]
                    =~= s@.subrange(seg_start as int, i as int + 1));
                assert(comma_split(s@.take(i as int + 1)) =~= parts.deep_view() + seq![
                    s@.subrange(seg_start as int, i as int + 1),
                ]);
            }
        }
        i = i + 1;
    }
    proof {
        assert(s@.take(n as int) =~= s@);
    }
    let last = s.substring_char(seg_start, n).to_owned();
    parts.push(last);
    proof {
        assert(parts.deep_view() =~= comma_split(s@));
    }
    parts
}

/// The parts trimmed of whitespace, with empty results dropped.
pub open spec fn normalize_parts(ps: Seq<Seq<char>>) -> Seq<Seq<char>>
    decreases ps.len(),
{
    if ps.len() == 0 {
        Seq::empty()
    } else {
        let init = normalize_parts(ps.drop_last());
        let t = trim_spec(ps.last());
        if t.len() == 0 {
            init
        } else {
            init + seq![t]
        }
    }
}

/// Trims each part and drops the parts that end up empty.
pub fn normalize_strings(parts: &Vec<String>) -> (r: Vec<String>)
    ensures
        r.deep_view() == normalize_parts(parts.deep_view()),
{
    let mut out: Vec<String> = Vec::new();
    let n = parts.len();
    let mut i: usize = 0;
    proof {
        assert(parts.deep_view().take(0) =~= Seq::<Seq<char>>::empty());
        assert(normalize_parts(parts.deep_view().take(0)) =~= Seq::<Seq<char>>::empty());
    }
    while i < n
        invariant
            0 <= i <= n,
            n == parts.len(),
            out.deep_view() == normalize_parts(parts.deep_view().take(i as int)),
        decreases n - i,
    {
        proof {
            assert(parts.deep_view().take(i as int + 1).drop_last() =~= parts.deep_view().take(
                i as int,
            ));
            assert(parts.deep_view().take(i as int + 1).last() == parts.deep_view()[i as int]);
        }
        let t = trim(parts[i].as_str());
        if t.unicode_len() > 0 {
            out.push(t);
            proof {
                assert(out.deep_view() =~= normalize_parts(
                    parts.deep_view().take(i as int + 1),
                ));
            }
        }
        i = i + 1;
    }
    proof {
        assert(parts.deep_view().take(n as int) =~= parts.deep_view());
    }
    out
}

/// The tag names denoted by a comma-delimited string: split at commas,
/// trimmed, empty entries dropped, in their original order.
pub open spec fn tags_of_string(s: Seq<char>) -> Seq<Seq<char>> {
    normalize_parts(comma_split(s))
}

/// Splits a comma-delimited tag string into trimmed, non-empty names.
pub fn split_tags(s: &str) -> (r: Vec<String>)
    ensures
        r.deep_view() == tags_of_string(s@),
{
    let parts = split_commas(s);
    normalize_strings(&parts)
}

/// The trimmed, non-empty entries of a list whose members may or may not
/// be strings; entries that are not strings are dropped.
pub open spec fn normalize_entries_spec(es: Seq<Option<Seq<char>>>) -> Seq<Seq<char>>
    decreases es.len(),
{
    if es.len() == 0 {
        Seq::empty()
    } else {
        let init = normalize_entries_spec(es.drop_last());
        match es.last() {
            Some(s) => {
                let t = trim_spec(s);
                if t.len() == 0 {
                    init
                } else {
                    init + seq![t]
                }
            },
            None => init,
        }
    }
}

/// Trims the string entries of a list and drops non-strings and entries
/// that end up empty.
pub fn normalize_entries(entries: &Vec<Option<String>>) -> (r: Vec<String>)
    ensures
        r.deep_view() == normalize_entries_spec(entries.deep_view()),
{
    let mut out: Vec<String> = Vec::new();
    let n = entries.len();
    let mut i: usize = 0;
    proof {
        assert(entries.deep_view().take(0) =~= Seq::<Option<Seq<char>>>::empty());
        assert(normalize_entries_spec(entries.deep_view().take(0)) =~= Seq::<Seq<char>>::empty());
    }
    while i < n
        invariant
            0 <= i <= n,
            n == entries.len(),
            out.deep_view() == normalize_entries_spec(entries.deep_view().take(i as int)),
        decreases n - i,
    {
        proof {
            assert(entries.deep_view().take(i as int + 1).drop_last() =~= entries.deep_view().take(
                i as int,
            ));
            assert(entries.deep_view().take(i as int + 1).last() == entries.deep_view()[i as int]);
        }
        match &entries[i] {
            Some(e) => {
                let t = trim(e.as_str());
                if t.unicode_len() > 0 {
                    out.push(t);
                    proof {
                        assert(out.deep_view() =~= normalize_entries_spec(
                            entries.deep_view().take(i as int + 1),
                        ));
                    }
                }
            },
            None => {},
        }
        i = i + 1;
    }
    proof {
        assert(entries.deep_view().take(n as int) =~= entries.deep_view());
    }
    out
}

/// A name list is normalized when every entry is non-empty and already
/// trimmed of whitespace.
pub open spec fn tags_normalized(ts: Seq<Seq<char>>) -> bool {
    forall|i: int|
        0 <= i < ts.len() ==> (#[trigger] ts[i]).len() > 0 && trim_spec(ts[i]) == ts[i]
}

proof fn lemma_trim_left_first(s: Seq<char>)
    ensures
        trim_left(s).len() > 0 ==> !is_ws(trim_left(s).first()),
    decreases s.len(),
{
    if s.len() > 0 && is_ws(s.first()) {
        lemma_trim_left_first(s.drop_first());
    }
}

proof fn lemma_trim_right_last(s: Seq<char>)
    ensures
        trim_right(s).len() > 0 ==> !is_ws(trim_right(s).last()),
    decreases s.len(),
{
    if s.len() > 0 && is_ws(s.last()) {
        lemma_trim_right_last(s.drop_last());
    }
}

proof fn lemma_trim_right_prefix(s: Seq<char>)
    ensures
        trim_right(s).len() <= s.len(),
        trim_right(s) == s.take(trim_right(s).len() as int),
    decreases s.len(),
{
    if s.len() > 0 && is_ws(s.last()) {
        lemma_trim_right_prefix(s.drop_last());
        assert(s.drop_last().take(trim_right(s).len() as int) =~= s.take(
            trim_right(s).len() as int,
        ));
    } else {
        assert(s.take(s.len() as int) =~= s);
    }
}

/// Law: trimming is idempotent — a trimmed text trims to itself.
pub proof fn lemma_trim_idempotent(s: Seq<char>)
    ensures
        trim_spec(trim_spec(s)) == trim_spec(s),
{
    let l = trim_left(s);
    let t = trim_right(l);
    lemma_trim_left_first(s);
    lemma_trim_right_prefix(l);
    lemma_trim_right_last(l);
    if t.len() > 0 {
        assert(t.first() == l.first());
        assert(trim_left(t) == t);
    }
}

proof fn lemma_normalize_parts_normalized(ps: Seq<Seq<char>>)
    ensures
        tags_normalized(normalize_parts(ps)),
    decreases ps.len(),
{
    if ps.len() > 0 {
        lemma_normalize_parts_normalized(ps.drop_last());
        lemma_trim_idempotent(ps.last());
        let init = normalize_parts(ps.drop_last());
        let t = trim_spec(ps.last());
        if t.len() > 0 {
            assert forall|i: int| 0 <= i < normalize_parts(ps).len() implies (
            #[trigger] normalize_parts(ps)[i]).len() > 0 && trim_spec(normalize_parts(ps)[i])
                == normalize_parts(ps)[i] by {
                if i < init.len() {
                    assert(normalize_parts(ps)[i] == init[i]);
                } else {
                    assert(normalize_parts(ps)[i] == t);
                }
            }
        }
    }
}

proof fn lemma_normalize_entries_normalized(es: Seq<Option<Seq<char>>>)
    ensures
        tags_normalized(normalize_entries_spec(es)),
    decreases es.len(),
{
    if es.len() > 0 {
        lemma_normalize_entries_normalized(es.drop_last());
        let init = normalize_entries_spec(es.drop_last());
        match es.last() {
            Some(s) => {
                lemma_trim_idempotent(s);
                let t = trim_spec(s);
                if t.len() > 0 {
                    assert forall|i: int| 0 <= i < normalize_entries_spec(es).len() implies (
                    #[trigger] normalize_entries_spec(es)[i]).len() > 0 && trim_spec(
                        normalize_entries_spec(es)[i],
                    ) == normalize_entries_spec(es)[i] by {
                        if i < init.len() {
                            assert(normalize_entries_spec(es)[i] == init[i]);
                        } else {
                            assert(normalize_entries_spec(es)[i] == t);
                        }
                    }
                }
            },
            None => {},
        }
    }
}

/// Law: whatever the input, the tags read from a comma-delimited string
/// are whitespace-trimmed and never empty.
pub proof fn lemma_string_tags_normalized(s: Seq<char>)
    ensures
        tags_normalized(tags_of_string(s)),
{
    lemma_normalize_parts_normalized(comma_split(s));
}

/// Law: whatever the input, the tags read from a list of entries are
/// whitespace-trimmed and never empty, and entries that are not strings
/// are dropped.
pub proof fn lemma_entry_tags_normalized(es: Seq<Option<Seq<char>>>)
    ensures
        tags_normalized(normalize_entries_spec(es)),
{
    lemma_normalize_entries_normalized(es);
}

/// The characters after the last `/`; the whole sequence when it holds
/// no `/`, empty when it ends with `/`.
pub open spec fn last_segment_spec(s: Seq<char>) -> Seq<char>
    decreases s.len(),
{
    if s.len() == 0 {
        Seq::empty()
    } else if s.last() == '/' {
        Seq::empty()
    } else {
        last_segment_spec(s.drop_last()) + seq![s.last()]
    }
}

proof fn lemma_last_segment_from(s: Seq<char>, i: int)
    requires
        0 <= i <= s.len(),
        i > 0 ==> s[i - 1] == '/',
        forall|j: int| i <= j < s.len() ==> s[j] != '/',
    ensures
        last_segment_spec(s) == s.subrange(i, s.len() as int),
    decreases s.len() - i,
{
    if i == s.len() {
        assert(s.subrange(i, s.len() as int) =~= Seq::<char>::empty());
    } else {
        assert(s[s.len() - 1] != '/');
        lemma_last_segment_from(s.drop_last(), i);
        assert(s.drop_last().subrange(i, s.len() - 1) + seq![s.last()] =~= s.subrange(
            i,
            s.len() as int,
        ));
    }
}

/// Returns the text after the last `/` of a URL; used as the fallback
/// title of a resource that was never described.
pub fn last_segment(s: &str) -> (r: String)
    ensures
        r@ == last_segment_spec(s@),
{
    let n = s.unicode_len();
    let mut i: usize = n;
    while i > 0 && s.get_char(i - 1) != '/'
        invariant
            0 <= i <= n,
            n == s@.len(),
            forall|j: int| i <= j < n ==> s@[j] != '/',
        decreases i,
    {
        i = i - 1;
    }
    proof {
        lemma_last_segment_from(s@, i as int);
    }
    s.substring_char(i, n).to_owned()
}

} // verus!
