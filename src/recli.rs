use vstd::prelude::*;

verus! {

/// Terminal sequence that switches bold on.
pub open spec fn bold_on() -> Seq<char> {
    seq!['\x1b', '[', '1', 'm']
}

/// Terminal sequence that switches cyan highlighting on.
pub open spec fn highlight_on() -> Seq<char> {
    seq!['\x1b', '[', '1', ';', '3', '6', 'm']
}

/// Terminal sequence that resets all attributes.
pub open spec fn attr_reset() -> Seq<char> {
    seq!['\x1b', '[', '0', 'm']
}

/// True when the character at `k` is preceded by a backslash.
pub open spec fn escaped(s: Seq<char>, k: int) -> bool {
    k > 0 && s[k - 1] == '\\'
}

/// True when position `k` holds the marker `m` and it is not escaped.
pub open spec fn is_marker(s: Seq<char>, k: int, m: char) -> bool {
    s[k] == m && !escaped(s, k)
}

/// Number of unescaped markers `m` among the first `k` characters.
pub open spec fn markers_before(s: Seq<char>, k: nat, m: char) -> nat
    decreases k,
{
    if k == 0 {
        0
    } else {
        markers_before(s, (k - 1) as nat, m) + if is_marker(s, k - 1, m) { 1nat } else { 0nat }
    }
}

/// True when position `k` is a backslash that escapes the following marker.
pub open spec fn is_escape(s: Seq<char>, k: int) -> bool {
    s[k] == '\\' && k + 1 < s.len() && (s[k + 1] == '*' || s[k + 1] == '~')
}

/// What the character at position `k` turns into.
pub open spec fn rendered_at(s: Seq<char>, k: nat) -> Seq<char> {
    if is_marker(s, k as int, '*') {
        if markers_before(s, k, '*') % 2 == 0 { bold_on() } else { attr_reset() }
    } else if is_marker(s, k as int, '~') {
        if markers_before(s, k, '~') % 2 == 0 { highlight_on() } else { attr_reset() }
    } else if is_escape(s, k as int) {
        Seq::empty()
    } else {
        seq![s[k as int]]
    }
}

/// The rendering of the first `k` characters of `s`.
pub open spec fn rendered_prefix(s: Seq<char>, k: nat) -> Seq<char>
    decreases k,
{
    if k == 0 {
        Seq::empty()
    } else {
        rendered_prefix(s, (k - 1) as nat) + rendered_at(s, (k - 1) as nat)
    }
}

/// The rendering of a whole message: `*` toggles bold, `~` toggles highlighting,
/// and a backslash before either marker makes it literal.
pub open spec fn rendered(s: Seq<char>) -> Seq<char> {
    rendered_prefix(s, s.len())
}

/// Relies on String::push: the character is appended at the end.
#[verifier::external_body]
fn push_char(s: &mut String, c: char)
    ensures
        final(s)@ == old(s)@.push(c),
{
    s.push(c)
}

proof fn lemma_markers_bounded(s: Seq<char>, k: nat, m: char)
    ensures
        markers_before(s, k, m) <= k,
    decreases k,
{
    if k > 0 {
        lemma_markers_bounded(s, (k - 1) as nat, m);
    }
}

/// Turns the markup of a log message into terminal escape sequences.
pub fn process_msg(msg: &str) -> (r: String)
    ensures
        r@ == rendered(msg@),
{
    let n = msg.unicode_len();
    let mut out = String::new();
    let mut bold_count: usize = 0;
    let mut highlight_count: usize = 0;
    let mut i: usize = 0;
    proof {
        reveal_strlit("\x1b[1m");
        reveal_strlit("\x1b[1;36m");
        reveal_strlit("\x1b[0m");
        assert(bold_on() =~= "\x1b[1m"@);
        assert(highlight_on() =~= "\x1b[1;36m"@);
        assert(attr_reset() =~= "\x1b[0m"@);
    }
    while i < n
        invariant
            n == msg@.len(),
            i <= n,
            bold_on() == "\x1b[1m"@,
            highlight_on() == "\x1b[1;36m"@,
            attr_reset() == "\x1b[0m"@,
            bold_count == markers_before(msg@, i as nat, '*'),
            highlight_count == markers_before(msg@, i as nat, '~'),
            out@ == rendered_prefix(msg@, i as nat),
        decreases n - i,
    {
        proof {
            lemma_markers_bounded(msg@, i as nat, '*');
            lemma_markers_bounded(msg@, i as nat, '~');
        }
        let c = msg.get_char(i);
        let after_backslash = i > 0 && msg.get_char(i - 1) == '\\';
        if c == '*' && !after_backslash {
            if bold_count % 2 == 0 {
                out.append("\x1b[1m");
            } else {
                out.append("\x1b[0m");
            }
            bold_count += 1;
        } else if c == '~' && !after_backslash {
            if highlight_count % 2 == 0 {
                out.append("\x1b[1;36m");
            } else {
                out.append("\x1b[0m");
            }
            highlight_count += 1;
        } else if c == '\\' && i + 1 < n && (msg.get_char(i + 1) == '*' || msg.get_char(i + 1)
            == '~') {
        } else {
            push_char(&mut out, c);
        }
        i += 1;
    }
    out
}

} // verus!
