use vstd::prelude::*;

verus! {

/// An ASCII hexadecimal digit, as `[0-9a-fA-F]` matches.
pub open spec fn is_hex_digit(c: char) -> bool {
    ('0' <= c && c <= '9') || ('a' <= c && c <= 'f') || ('A' <= c && c <= 'F')
}

/// The positions of the dashes in the textual form of a UUID.
pub open spec fn is_dash_position(i: int) -> bool {
    i == 8 || i == 13 || i == 18 || i == 23
}

/// A text in the 8-4-4-4-12 hexadecimal form of a UUID.
pub open spec fn is_uuid_text(s: Seq<char>) -> bool {
    &&& s.len() == 36
    &&& forall|i: int| 0 <= i < 36 ==> (if is_dash_position(i) { s[i] == '-' } else { is_hex_digit(#[trigger] s[i]) })
}

/// The 36 characters of `h` from position `i` form a UUID.
pub open spec fn uuid_at(h: Seq<char>, i: int) -> bool {
    0 <= i && i + 36 <= h.len() && is_uuid_text(h.subrange(i, i + 36))
}

/// The first UUID in `h` that starts at position `i` or later.
pub open spec fn first_uuid_from(h: Seq<char>, i: nat) -> Option<Seq<char>>
    decreases h.len() - i,
{
    if i + 36 > h.len() {
        None
    } else if uuid_at(h, i as int) {
        Some(h.subrange(i as int, i as int + 36))
    } else {
        first_uuid_from(h, i + 1)
    }
}

/// The leftmost UUID written in `h`.
pub open spec fn first_uuid(h: Seq<char>) -> Option<Seq<char>> {
    first_uuid_from(h, 0)
}

/// The pattern with which the identifiers of created tasks are found.
pub open spec fn uuid_pattern() -> Seq<char> {
    "[0-9a-fA-F]{8}-[0-9a-fA-F]{4}-[0-9a-fA-F]{4}-[0-9a-fA-F]{4}-[0-9a-fA-F]{12}"@
}

/// Compiles `pattern` with `regex::Regex::new` and returns the text of the
/// whole match (group 0) of `Regex::captures` in `haystack`. The regex crate
/// reports the leftmost-first match; the one pattern the library passes has a
/// fixed width of 36 characters, all ASCII, so its leftmost match is the
/// leftmost 36-character window in the UUID form. The pattern compiles, so the
/// `unwrap` does not panic.
#[verifier::external_body]
fn regex_first_capture(pattern: &str, haystack: &str) -> (m: Option<String>)
    requires
        pattern@ == uuid_pattern(),
    ensures
        m is Some <==> first_uuid(haystack@) is Some,
        m matches Some(s) ==> first_uuid(haystack@) == Some(s@),
{
    regex::Regex::new(pattern).unwrap().captures(haystack).map(|c| c[0].to_string())
}

/// The identifier taskwarrior reports for a created task: the leftmost UUID in
/// its output.
pub fn find_uuid(output: &str) -> (m: Option<String>)
    ensures
        m is Some <==> first_uuid(output@) is Some,
        m matches Some(s) ==> first_uuid(output@) == Some(s@),
{
    regex_first_capture("[0-9a-fA-F]{8}-[0-9a-fA-F]{4}-[0-9a-fA-F]{4}-[0-9a-fA-F]{4}-[0-9a-fA-F]{12}", output)
}

proof fn lemma_first_uuid_from_found(h: Seq<char>, i: nat)
    requires
        first_uuid_from(h, i) is Some,
    ensures
        exists|k: int| #![trigger uuid_at(h, k)]
            i <= k && uuid_at(h, k) && first_uuid_from(h, i) == Some(h.subrange(k, k + 36))
            && forall|j: int| i <= j < k ==> !uuid_at(h, j),
    decreases h.len() - i,
{
    if uuid_at(h, i as int) {
        assert(uuid_at(h, i as int));
    } else {
        lemma_first_uuid_from_found(h, i + 1);
        let k = choose|k: int| #![trigger uuid_at(h, k)]
            i + 1 <= k && uuid_at(h, k) && first_uuid_from(h, i + 1) == Some(h.subrange(k, k + 36))
            && forall|j: int| i + 1 <= j < k ==> !uuid_at(h, j);
        assert(uuid_at(h, k));
    }
}

proof fn lemma_first_uuid_from_none(h: Seq<char>, i: nat)
    requires
        first_uuid_from(h, i) is None,
    ensures
        forall|j: int| i <= j ==> !uuid_at(h, j),
    decreases h.len() - i,
{
    if i + 36 <= h.len() {
        lemma_first_uuid_from_none(h, i + 1);
    }
}

/// What `find_uuid` returns is a UUID that `h` holds, no UUID starts earlier in
/// `h`, and it returns nothing only when `h` holds no UUID at all.
pub proof fn law_found_uuid_is_leftmost(h: Seq<char>)
    ensures
        first_uuid(h) matches Some(u) ==> is_uuid_text(u) && exists|k: int| #![trigger uuid_at(h, k)]
            uuid_at(h, k) && h.subrange(k, k + 36) == u && forall|j: int| 0 <= j < k ==> !uuid_at(h, j),
        first_uuid(h) is None ==> forall|j: int| !uuid_at(h, j),
{
    if first_uuid(h) is Some {
        lemma_first_uuid_from_found(h, 0);
    } else {
        lemma_first_uuid_from_none(h, 0);
    }
}

/// Output that begins with a UUID yields that UUID.
pub proof fn law_leading_uuid_is_found(u: Seq<char>, rest: Seq<char>)
    requires
        is_uuid_text(u),
    ensures
        first_uuid(u + rest) == Some(u),
{
    let h = u + rest;
    assert(h.subrange(0, 36) =~= u);
    assert(uuid_at(h, 0));
}

} // verus!
