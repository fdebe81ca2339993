use vstd::prelude::*;

verus! {

/// Whether `c` has the Unicode `White_Space` property (what `char::is_whitespace` tests).
pub open spec fn is_unicode_whitespace(c: char) -> bool {
    let u = c as u32;
    ||| 0x09 <= u <= 0x0d
    ||| u == 0x20
    ||| u == 0x85
    ||| u == 0xa0
    ||| u == 0x1680
    ||| 0x2000 <= u <= 0x200a
    ||| u == 0x2028
    ||| u == 0x2029
    ||| u == 0x202f
    ||| u == 0x205f
    ||| u == 0x3000
}

/// Whether every character of `s` is whitespace, so that trimming leaves nothing.
pub open spec fn is_blank(s: Seq<char>) -> bool {
    forall|i: int| 0 <= i < s.len() ==> is_unicode_whitespace(#[trigger] s[i])
}

/// `s` without its leading whitespace.
pub open spec fn trim_start(s: Seq<char>) -> Seq<char>
    decreases s.len(),
{
    if s.len() > 0 && is_unicode_whitespace(s[0]) {
        trim_start(s.drop_first())
    } else {
        s
    }
}

/// `s` without the `'/'` characters at its end.
pub open spec fn trim_trailing_slashes(s: Seq<char>) -> Seq<char>
    decreases s.len(),
{
    if s.len() > 0 && s.last() == '/' {
        trim_trailing_slashes(s.drop_last())
    } else {
        s
    }
}

/// `c` with an ASCII capital letter turned into its small letter.
pub open spec fn ascii_lower(c: char) -> char {
    if 'A' <= c <= 'Z' {
        ((c as u32) + 32) as char
    } else {
        c
    }
}

/// Whether `a` and `b` are equal once ASCII letters are compared without case.
pub open spec fn eq_ignore_ascii_case(a: Seq<char>, b: Seq<char>) -> bool {
    &&& a.len() == b.len()
    &&& forall|i: int| 0 <= i < a.len() ==> ascii_lower(#[trigger] a[i]) == ascii_lower(b[i])
}

/// Whether the separator `"://"` starts at position `k` of `s`.
pub open spec fn separator_at(s: Seq<char>, k: int) -> bool {
    &&& 0 <= k
    &&& k + 3 <= s.len()
    &&& s[k] == ':'
    &&& s[k + 1] == '/'
    &&& s[k + 2] == '/'
}

/// The scheme name `https`.
pub open spec fn https_name() -> Seq<char> {
    seq!['h', 't', 't', 'p', 's']
}

/// Whether the text before the first `"://"` of `s` is `https`, in any ASCII case.
/// Without a `"://"` there is no scheme and the answer is `false`.
pub open spec fn scheme_is_https(s: Seq<char>) -> bool {
    exists|k: int|
        #![trigger separator_at(s, k)]
        {
            &&& separator_at(s, k)
            &&& forall|j: int| 0 <= j < k ==> !separator_at(s, j)
            &&& eq_ignore_ascii_case(s.take(k), https_name())
        }
}

/// The characters of `s`, in order.
pub fn chars_of(s: &str) -> (v: Vec<char>)
    ensures
        v@ == s@,
{
    let mut v: Vec<char> = Vec::new();
    for c in it: s.chars()
        invariant
            v@ == it.seq().take(it.index() as int),
            it.seq() == s@,
    {
        v.push(c);
    }
    v
}

/// Appends one character to `s`: calls `String::push`, which the standard library documents as
/// appending the character to the end of the string, as the contract states.
#[verifier::external_body]
fn push_char(s: &mut String, c: char)
    ensures
        final(s)@ == old(s)@.push(c),
{
    s.push(c);
}

/// The string made of the first `n` characters of `v`.
pub fn string_of_prefix(v: &Vec<char>, n: usize) -> (r: String)
    requires
        n <= v.len(),
    ensures
        r@ == v@.take(n as int),
{
    let mut r = String::new();
    let mut i: usize = 0;
    while i < n
        invariant
            i <= n <= v.len(),
            r@ == v@.take(i as int),
        decreases n - i,
    {
        push_char(&mut r, v[i]);
        assert(v@.take(i as int).push(v@[i as int]) =~= v@.take(i + 1));
        i = i + 1;
    }
    r
}

/// Whether `c` has the Unicode `White_Space` property.
pub fn is_whitespace(c: char) -> (r: bool)
    ensures
        r == is_unicode_whitespace(c),
{
    let u = c as u32;
    (0x09 <= u && u <= 0x0d) || u == 0x20 || u == 0x85 || u == 0xa0 || u == 0x1680 || (0x2000
        <= u && u <= 0x200a) || u == 0x2028 || u == 0x2029 || u == 0x202f || u == 0x205f || u
        == 0x3000
}

/// Whether `s` is empty or made only of whitespace (`s.trim().is_empty()`).
pub fn is_blank_str(s: &str) -> (r: bool)
    ensures
        r == is_blank(s@),
{
    let v = chars_of(s);
    let mut i: usize = 0;
    while i < v.len()
        invariant
            i <= v.len(),
            v@ == s@,
            forall|j: int| 0 <= j < i ==> is_unicode_whitespace(#[trigger] v@[j]),
        decreases v.len() - i,
    {
        if !is_whitespace(v[i]) {
            return false;
        }
        i = i + 1;
    }
    true
}

/// Trimming the first `n` characters, all whitespace and followed by a non-whitespace
/// character or by the end, is trimming the leading whitespace.
proof fn lemma_trim_start_skip(s: Seq<char>, n: int)
    requires
        0 <= n <= s.len(),
        forall|j: int| 0 <= j < n ==> is_unicode_whitespace(#[trigger] s[j]),
        n == s.len() || !is_unicode_whitespace(s[n]),
    ensures
        trim_start(s) == s.skip(n),
    decreases n,
{
    if n == 0 {
        assert(s.skip(0) =~= s);
    } else {
        let t = s.drop_first();
        assert forall|j: int| 0 <= j < n - 1 implies is_unicode_whitespace(#[trigger] t[j]) by {
            assert(t[j] == s[j + 1]);
        }
        lemma_trim_start_skip(t, n - 1);
        assert(t.skip(n - 1) =~= s.skip(n));
    }
}

/// Keeping the first `n` characters, where all that follow are `'/'` and the last one kept
/// is not, is trimming the trailing slashes.
proof fn lemma_trim_trailing_take(s: Seq<char>, n: int)
    requires
        0 <= n <= s.len(),
        forall|j: int| n <= j < s.len() ==> #[trigger] s[j] == '/',
        n == 0 || s[n - 1] != '/',
    ensures
        trim_trailing_slashes(s) == s.take(n),
    decreases s.len() - n,
{
    if n == s.len() {
        assert(s.take(n) =~= s);
    } else {
        let t = s.drop_last();
        lemma_trim_trailing_take(t, n);
        assert(t.take(n) =~= s.take(n));
    }
}

/// `s` without its trailing `'/'` characters (`s.trim_end_matches('/')`).
pub fn trim_trailing_slashes_str(s: &str) -> (r: String)
    ensures
        r@ == trim_trailing_slashes(s@),
{
    let v = chars_of(s);
    let mut n: usize = v.len();
    while n > 0 && v[n - 1] == '/'
        invariant
            n <= v.len(),
            v@ == s@,
            forall|j: int| n <= j < v.len() ==> #[trigger] v@[j] == '/',
        decreases n,
    {
        n = n - 1;
    }
    proof {
        lemma_trim_trailing_take(v@, n as int);
    }
    string_of_prefix(&v, n)
}

/// `c` with an ASCII capital letter turned into its small letter.
pub fn to_ascii_lower(c: char) -> (r: char)
    ensures
        r == ascii_lower(c),
{
    if 'A' <= c && c <= 'Z' {
        let u = c as u32 + 32;
        assert(0x61 <= u <= 0x7a);
        char_from_ascii(u)
    } else {
        c
    }
}

/// The character with ASCII code `u`.
fn char_from_ascii(u: u32) -> (r: char)
    requires
        u < 0x80,
    ensures
        r == u as char,
{
    (u as u8) as char
}

/// Whether the endpoint, once its leading whitespace is trimmed, names the `https` scheme
/// before its first `"://"`.
pub fn has_https_scheme(endpoint: &str) -> (r: bool)
    ensures
        r == scheme_is_https(trim_start(endpoint@)),
{
    let v = chars_of(endpoint);
    let mut start: usize = 0;
    while start < v.len() && is_whitespace(v[start])
        invariant
            start <= v.len(),
            v@ == endpoint@,
            forall|j: int| 0 <= j < start ==> is_unicode_whitespace(#[trigger] v@[j]),
        decreases v.len() - start,
    {
        start = start + 1;
    }
    let ghost t = v@.skip(start as int);
    proof {
        lemma_trim_start_skip(v@, start as int);
    }
    // Look for the first separator in the trimmed text.
    let len = v.len() - start;
    let mut k: usize = 0;
    let mut found = false;
    while len >= 3 && k <= len - 3
        invariant
            start <= v.len(),
            len == v.len() - start,
            t == v@.skip(start as int),
            forall|j: int| 0 <= j < k ==> !separator_at(t, j),
            found ==> separator_at(t, k as int),
        ensures
            forall|j: int| 0 <= j < k ==> !separator_at(t, j),
            found ==> separator_at(t, k as int),
            !found ==> !scheme_is_https(t),
        decreases len - k,
    {
        if v[start + k] == ':' && v[start + k + 1] == '/' && v[start + k + 2] == '/' {
            found = true;
            break;
        }
        k = k + 1;
    }
    if !found {
        return false;
    }
    proof {
        lemma_first_separator_decides(t, k as int);
    }
    if k != 5 {
        return false;
    }
    let name = ['h', 't', 't', 'p', 's'];
    assert(name@ == https_name());
    let mut i: usize = 0;
    while i < 5
        invariant
            i <= 5,
            start + 5 <= v.len(),
            t == v@.skip(start as int),
            name@ == https_name(),
            trim_start(endpoint@) == t,
            scheme_is_https(t) == eq_ignore_ascii_case(t.take(5), https_name()),
            forall|j: int| 0 <= j < i ==> ascii_lower(#[trigger] t[j]) == ascii_lower(name@[j]),
        decreases 5 - i,
    {
        assert(v@[start + i] == t[i as int]);
        if to_ascii_lower(v[start + i]) != to_ascii_lower(name[i]) {
            assert(t.take(5)[i as int] == t[i as int]);
            assert(!eq_ignore_ascii_case(t.take(5), https_name()));
            return false;
        }
        i = i + 1;
    }
    assert(eq_ignore_ascii_case(t.take(5), https_name())) by {
        assert forall|j: int| 0 <= j < 5 implies ascii_lower(#[trigger] t.take(5)[j]) == ascii_lower(
            https_name()[j],
        ) by {
            assert(t.take(5)[j] == t[j]);
        }
    }
    true
}

/// Once the first separator of `s` is known to stand at `k`, the scheme is the text before it.
proof fn lemma_first_separator_decides(s: Seq<char>, k: int)
    requires
        separator_at(s, k),
        forall|j: int| 0 <= j < k ==> !separator_at(s, j),
    ensures
        scheme_is_https(s) == eq_ignore_ascii_case(s.take(k), https_name()),
{
    if scheme_is_https(s) {
        let w = choose|w: int|
            #![trigger separator_at(s, w)]
            {
                &&& separator_at(s, w)
                &&& forall|j: int| 0 <= j < w ==> !separator_at(s, j)
                &&& eq_ignore_ascii_case(s.take(w), https_name())
            };
        if w > k {
            assert(!separator_at(s, k));
        }
        if w < k {
            assert(!separator_at(s, w));
        }
    }
}

/// A value that can become an owned text: `&str`, `String`, `&String`, `Box<str>`,
/// `Cow<str>` or `char`.
pub trait IntoText {
    /// The characters of the text.
    spec fn text(&self) -> Seq<char>;

    /// The owned text.
    fn into_text(self) -> (r: String)
        ensures
            r@ == self.text(),
    ;
}

impl<'a> IntoText for &'a str {
    open spec fn text(&self) -> Seq<char> {
        (**self)@
    }

    fn into_text(self) -> (r: String) {
        self.to_owned()
    }
}

impl IntoText for String {
    open spec fn text(&self) -> Seq<char> {
        self@
    }

    fn into_text(self) -> (r: String) {
        self
    }
}

impl<'a> IntoText for &'a String {
    open spec fn text(&self) -> Seq<char> {
        (**self)@
    }

    fn into_text(self) -> (r: String) {
        self.clone()
    }
}

/// Trimming trailing slashes leaves a prefix that does not end with `'/'`, and trimming it
/// again changes nothing.
pub proof fn law_trailing_slashes_trimmed(s: Seq<char>)
    ensures
        trim_trailing_slashes(s).len() == 0 || trim_trailing_slashes(s).last() != '/',
        trim_trailing_slashes(s).len() <= s.len(),
        trim_trailing_slashes(s) =~= s.take(trim_trailing_slashes(s).len() as int),
        trim_trailing_slashes(trim_trailing_slashes(s)) == trim_trailing_slashes(s),
    decreases s.len(),
{
    if s.len() > 0 && s.last() == '/' {
        law_trailing_slashes_trimmed(s.drop_last());
        let t = trim_trailing_slashes(s.drop_last());
        assert(s.drop_last().take(t.len() as int) =~= s.take(t.len() as int));
    }
}

impl IntoText for Box<str> {
    open spec fn text(&self) -> Seq<char> {
        (**self)@
    }

    fn into_text(self) -> (r: String) {
        (*self).to_owned()
    }
}

impl<'a> IntoText for std::borrow::Cow<'a, str> {
    open spec fn text(&self) -> Seq<char> {
        self@
    }

    fn into_text(self) -> (r: String) {
        match self {
            std::borrow::Cow::Borrowed(borrowed) => borrowed.to_owned(),
            std::borrow::Cow::Owned(owned) => owned,
        }
    }
}

impl IntoText for char {
    open spec fn text(&self) -> Seq<char> {
        seq![*self]
    }

    fn into_text(self) -> (r: String) {
        let mut text = String::new();
        push_char(&mut text, self);
        assert(text@ =~= seq![self]);
        text
    }
}

} // verus!
