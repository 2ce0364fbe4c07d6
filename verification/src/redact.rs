//! Redaction of credentials in texts that are shown to the user.
//!
//! A credential is what follows one of the markers `xoxp-`, `xapp-`,
//! `xoxb-` and `Bearer `, up to the next space or the end of the text. The
//! marker stays, and a fixed tag takes the place of the credential.

use crate::text::{
    chars_of, is_space, lemma_word_end, matches_at, occurs_at, push_all, string_of, word_end,
    word_end_at,
};
use vstd::prelude::*;

verus! {

/// What stands in the place of a credential.
pub const REDACTED: &'static str = "[REDACTED]";

/// `m` is one of the markers that announce a credential.
pub open spec fn is_marker(m: Seq<char>) -> bool {
    m == "xoxp-"@ || m == "xapp-"@ || m == "xoxb-"@ || m == "Bearer "@
}

/// The marker that starts at index `i` of `s`, if one does.
pub open spec fn marker_at(s: Seq<char>, i: int) -> Option<Seq<char>> {
    if matches_at(s, "xoxp-"@, i) {
        Some("xoxp-"@)
    } else if matches_at(s, "xapp-"@, i) {
        Some("xapp-"@)
    } else if matches_at(s, "xoxb-"@, i) {
        Some("xoxb-"@)
    } else if matches_at(s, "Bearer "@, i) {
        Some("Bearer "@)
    } else {
        None
    }
}

/// The redacted form of `s[i..]`. Where a marker starts, the marker and
/// the tag are written and the text is taken up again at the next space;
/// every other character is copied.
pub open spec fn redacted_from(s: Seq<char>, i: int) -> Seq<char>
    decreases s.len() - i,
{
    if i < 0 || i >= s.len() {
        Seq::empty()
    } else {
        match marker_at(s, i) {
            Some(m) => if m.len() > 0 {
                proof {
                    lemma_word_end(s, i + m.len());
                }
                m + REDACTED@ + redacted_from(s, word_end(s, i + m.len()))
            } else {
                seq![s[i]] + redacted_from(s, i + 1)
            },
            None => seq![s[i]] + redacted_from(s, i + 1),
        }
    }
}

/// The redacted form of `s`.
pub open spec fn redacted(s: Seq<char>) -> Seq<char> {
    redacted_from(s, 0)
}

/// The length of the marker that starts at index `i` of `s`, and zero
/// where none does.
fn marker_len_at(
    s: &Vec<char>,
    i: usize,
    user: &Vec<char>,
    app: &Vec<char>,
    bot: &Vec<char>,
    bearer: &Vec<char>,
) -> (r: usize)
    requires
        user@ == "xoxp-"@,
        app@ == "xapp-"@,
        bot@ == "xoxb-"@,
        bearer@ == "Bearer "@,
    ensures
        match marker_at(s@, i as int) {
            Some(m) => r == m.len(),
            None => r == 0,
        },
{
    if occurs_at(s, user, i) {
        user.len()
    } else if occurs_at(s, app, i) {
        app.len()
    } else if occurs_at(s, bot, i) {
        bot.len()
    } else if occurs_at(s, bearer, i) {
        bearer.len()
    } else {
        0
    }
}

/// A marker that starts at an index is the text that stands there.
proof fn lemma_marker_is_text(s: Seq<char>, i: int)
    ensures
        marker_at(s, i) matches Some(m) ==> 0 <= i && i + m.len() <= s.len() && s.subrange(
            i,
            i + m.len(),
        ) == m,
{
}

/// The text with every credential replaced by the tag.
pub fn redact_sensitive(input: &str) -> (out: String)
    ensures
        out@ == redacted(input@),
{
    let s = chars_of(input);
    let user = chars_of("xoxp-");
    let app = chars_of("xapp-");
    let bot = chars_of("xoxb-");
    let bearer = chars_of("Bearer ");
    let tag = chars_of(REDACTED);
    let mut out: Vec<char> = Vec::new();
    let mut i: usize = 0;
    assert(out@ + redacted_from(s@, 0) =~= redacted(s@));
    while i < s.len()
        invariant
            i <= s.len(),
            user@ == "xoxp-"@,
            app@ == "xapp-"@,
            bot@ == "xoxb-"@,
            bearer@ == "Bearer "@,
            tag@ == REDACTED@,
            out@ + redacted_from(s@, i as int) == redacted(s@),
        decreases s.len() - i,
    {
        let ghost start = out@;
        let len = marker_len_at(&s, i, &user, &app, &bot, &bearer);
        proof {
            lemma_marker_is_text(s@, i as int);
        }
        if len > 0 {
            let marker = crate::text::slice_chars(&s, i, i + len);
            push_all(&mut out, &marker);
            push_all(&mut out, &tag);
            let next = word_end_at(&s, i + len);
            proof {
                lemma_word_end(s@, i + len);
                let m = marker_at(s@, i as int)->0;
                let tail = redacted_from(s@, next as int);
                assert(redacted_from(s@, i as int) == m + REDACTED@ + tail);
                assert(out@ =~= start + m + REDACTED@);
                assert(out@ + tail =~= start + (m + REDACTED@ + tail));
            }
            i = next;
        } else {
            out.push(s[i]);
            proof {
                let tail = redacted_from(s@, i + 1);
                assert(redacted_from(s@, i as int) == seq![s@[i as int]] + tail);
                assert(out@ + tail =~= start + (seq![s@[i as int]] + tail));
            }
            i += 1;
        }
    }
    assert(out@ + Seq::<char>::empty() =~= out@);
    string_of(&out)
}

/// What a pattern finds behind a prefix is what it finds without the
/// prefix.
proof fn lemma_matches_shift(a: Seq<char>, b: Seq<char>, pat: Seq<char>, i: int)
    requires
        0 <= i,
    ensures
        matches_at(a + b, pat, a.len() + i) == matches_at(b, pat, i),
{
    if i + pat.len() <= b.len() {
        assert((a + b).subrange(a.len() + i, a.len() + i + pat.len()) =~= b.subrange(
            i,
            i + pat.len(),
        ));
    }
}

proof fn lemma_word_end_shift(a: Seq<char>, b: Seq<char>, i: int)
    requires
        0 <= i <= b.len(),
    ensures
        word_end(a + b, a.len() + i) == a.len() + word_end(b, i),
    decreases b.len() - i,
{
    if i < b.len() {
        assert((a + b)[a.len() + i] == b[i]);
        if !is_space(b[i]) {
            lemma_word_end_shift(a, b, i + 1);
        }
    }
}

/// The redacted form of the rest of a text does not depend on what comes
/// before it.
pub proof fn lemma_redacted_shift(a: Seq<char>, b: Seq<char>, i: int)
    requires
        0 <= i <= b.len(),
    ensures
        redacted_from(a + b, a.len() + i) == redacted_from(b, i),
    decreases b.len() - i,
{
    if i < b.len() {
        let s = a + b;
        let k = a.len() + i;
        lemma_matches_shift(a, b, "xoxp-"@, i);
        lemma_matches_shift(a, b, "xapp-"@, i);
        lemma_matches_shift(a, b, "xoxb-"@, i);
        lemma_matches_shift(a, b, "Bearer "@, i);
        assert(marker_at(s, k) == marker_at(b, i));
        assert(s[k] == b[i]);
        match marker_at(b, i) {
            Some(m) => {
                if m.len() > 0 {
                    lemma_word_end(b, i + m.len());
                    lemma_word_end_shift(a, b, i + m.len());
                    lemma_redacted_shift(a, b, word_end(b, i + m.len()));
                    assert(a.len() + i + m.len() == k + m.len());
                } else {
                    lemma_redacted_shift(a, b, i + 1);
                    assert(a.len() + (i + 1) == k + 1);
                }
            },
            None => {
                lemma_redacted_shift(a, b, i + 1);
                assert(a.len() + (i + 1) == k + 1);
            },
        }
    }
}

/// At an index where a marker starts, that marker is the one that is
/// found, and it is not empty.
proof fn lemma_marker_found(s: Seq<char>, i: int, m: Seq<char>)
    requires
        is_marker(m),
        matches_at(s, m, i),
    ensures
        marker_at(s, i) == Some(m),
        m.len() > 0,
{
    reveal_strlit("xoxp-");
    reveal_strlit("xapp-");
    reveal_strlit("xoxb-");
    reveal_strlit("Bearer ");
    let user = "xoxp-"@;
    let app = "xapp-"@;
    let bot = "xoxb-"@;
    let bearer = "Bearer "@;
    if matches_at(s, user, i) {
        assert(s.subrange(i, i + 5)[1] == 'o');
        assert(s.subrange(i, i + 5)[3] == 'p');
    }
    if matches_at(s, app, i) {
        assert(s.subrange(i, i + 5)[1] == 'a');
    }
    if matches_at(s, bot, i) {
        assert(s.subrange(i, i + 5)[1] == 'o');
        assert(s.subrange(i, i + 5)[3] == 'b');
    }
    if matches_at(s, bearer, i) {
        assert(s.subrange(i, i + 7)[0] == 'B');
    }
    if matches_at(s, user, i) || matches_at(s, app, i) || matches_at(s, bot, i) {
        assert(s.subrange(i, i + 5)[0] == 'x');
    }
}

/// A credential does not survive redaction. Where a text holds a marker,
/// then a credential without spaces, then nothing or a space, and no
/// marker starts before that one, the redacted text holds what came
/// before, the marker and the tag, and then the redacted rest: nothing of
/// the credential is left in its place, whatever it was.
pub proof fn lemma_credential_is_replaced(
    before: Seq<char>,
    marker: Seq<char>,
    credential: Seq<char>,
    rest: Seq<char>,
)
    requires
        is_marker(marker),
        forall|i: int| 0 <= i < credential.len() ==> !is_space(credential[i]),
        rest.len() == 0 || is_space(rest[0]),
        forall|i: int|
            0 <= i < before.len() ==> marker_at(before + marker + credential + rest, i) is None,
    ensures
        redacted(before + marker + credential + rest) == before + marker + REDACTED@ + redacted(
            rest,
        ),
{
    let s = before + marker + credential + rest;
    let start = before.len() as int;
    lemma_copied_prefix(s, start, 0);
    assert(s.subrange(0, start) =~= before);
    assert(s.subrange(start, start + marker.len()) =~= marker);
    lemma_marker_found(s, start, marker);
    let from = start + marker.len();
    let end = from + credential.len();
    lemma_word_end(s, from);
    assert forall|j: int| from <= j < end implies !is_space(s[j]) by {
        assert(s[j] == credential[j - from]);
    }
    if word_end(s, from) < end {
        assert(!is_space(s[word_end(s, from)]));
    }
    if word_end(s, from) > end {
        assert(s[end] == rest[0]);
        assert(is_space(s[end]));
    }
    assert(word_end(s, from) == end);
    assert(s =~= (before + marker + credential) + rest);
    lemma_redacted_shift(before + marker + credential, rest, 0);
    if start < s.len() {
        assert(redacted_from(s, start) == marker + REDACTED@ + redacted_from(s, end));
    }
    assert(redacted(s) =~= before + marker + REDACTED@ + redacted(rest));
}

/// Where no marker starts between `i` and `upto`, the characters between
/// them are copied.
proof fn lemma_copied_prefix(s: Seq<char>, upto: int, i: int)
    requires
        0 <= i <= upto <= s.len(),
        forall|j: int| 0 <= j < upto ==> marker_at(s, j) is None,
    ensures
        redacted_from(s, i) == s.subrange(i, upto) + redacted_from(s, upto),
    decreases upto - i,
{
    if i < upto {
        lemma_copied_prefix(s, upto, i + 1);
        assert(marker_at(s, i) is None);
        assert(seq![s[i]] + s.subrange(i + 1, upto) =~= s.subrange(i, upto));
        assert(redacted_from(s, i) =~= s.subrange(i, upto) + redacted_from(s, upto));
    } else {
        assert(s.subrange(i, upto) + redacted_from(s, upto) =~= redacted_from(s, upto));
    }
}

} // verus!
