//! The application's asset configuration: two image paths, read from and
//! written to a small line-based `key=value` text.
//!
//! The grammar: the text is split at newlines; a line may end in a carriage
//! return, which is dropped. A line starting with `background=` or `border=`
//! sets that path to the rest of the line with surrounding blanks removed;
//! later lines override earlier ones; all other lines are ignored. A path
//! never set keeps its default. Reading and writing the file itself is the
//! caller's business; this module only decides what the text means.

use vstd::prelude::*;
use vstd::string::StringExecFns;
use vstd::string::StrSliceExecFns;

verus! {

/// Paths of the two images the application composites.
pub struct AppConfig {
    pub background_path: String,
    pub border_path: String,
}

/// The blanks stripped from around a configured value.
pub open spec fn is_space(c: char) -> bool {
    c == ' ' || c == '\t' || c == '\r' || c == '\n'
}

/// Leading blanks removed.
pub open spec fn trim_front(s: Seq<char>) -> Seq<char>
    decreases s.len(),
{
    if s.len() > 0 && is_space(s.first()) {
        trim_front(s.drop_first())
    } else {
        s
    }
}

/// Trailing blanks removed.
pub open spec fn trim_back(s: Seq<char>) -> Seq<char>
    decreases s.len(),
{
    if s.len() > 0 && is_space(s.last()) {
        trim_back(s.drop_last())
    } else {
        s
    }
}

/// Surrounding blanks removed.
pub open spec fn trimmed(s: Seq<char>) -> Seq<char> {
    trim_back(trim_front(s))
}

/// A line may end in a carriage return, which is not part of it.
pub open spec fn strip_cr(l: Seq<char>) -> Seq<char> {
    if l.len() > 0 && l.last() == '\r' {
        l.drop_last()
    } else {
        l
    }
}

pub open spec fn background_key() -> Seq<char> {
    "background="@
}

pub open spec fn border_key() -> Seq<char> {
    "border="@
}

pub open spec fn default_background() -> Seq<char> {
    "background.png"@
}

pub open spec fn default_border() -> Seq<char> {
    "border.png"@
}

/// What one line does to the two paths.
pub open spec fn apply_line(line: Seq<char>, bg: Seq<char>, bd: Seq<char>) -> (Seq<char>, Seq<
    char,
>) {
    if line.len() >= background_key().len() && line.subrange(
        0,
        background_key().len() as int,
    ) == background_key() {
        (trimmed(line.skip(background_key().len() as int)), bd)
    } else if line.len() >= border_key().len() && line.subrange(0, border_key().len() as int)
        == border_key() {
        (bg, trimmed(line.skip(border_key().len() as int)))
    } else {
        (bg, bd)
    }
}

/// Walk the text one character at a time from position `i`, with `cur` the
/// part of the current line already seen; apply each finished line in turn.
/// A final line without a newline still counts.
pub open spec fn parse_walk(
    s: Seq<char>,
    i: int,
    cur: Seq<char>,
    bg: Seq<char>,
    bd: Seq<char>,
) -> (Seq<char>, Seq<char>)
    decreases s.len() - i,
{
    if i < 0 || i >= s.len() {
        if cur.len() > 0 {
            apply_line(strip_cr(cur), bg, bd)
        } else {
            (bg, bd)
        }
    } else if s[i] == '\n' {
        let next = apply_line(strip_cr(cur), bg, bd);
        parse_walk(s, i + 1, Seq::empty(), next.0, next.1)
    } else {
        parse_walk(s, i + 1, cur.push(s[i]), bg, bd)
    }
}

/// What a whole configuration text means: both paths, each falling back to
/// its default when the text never sets it.
pub open spec fn parse_config_spec(s: Seq<char>) -> (Seq<char>, Seq<char>) {
    parse_walk(s, 0, Seq::empty(), default_background(), default_border())
}

/// The text that stores a configuration: one line per path, in fixed order.
pub open spec fn serialized(bg: Seq<char>, bd: Seq<char>) -> Seq<char> {
    background_key() + bg + "\n"@ + border_key() + bd + "\n"@
}

/// A half-open span of character positions into the parsed text, or nothing.
pub open spec fn span_ok(sp: Option<(usize, usize)>, n: int) -> bool {
    match sp {
        None => true,
        Some(p) => p.0 <= p.1 <= n,
    }
}

/// The value a span stands for: the spanned text, or the default.
pub open spec fn span_val(s: Seq<char>, sp: Option<(usize, usize)>, def: Seq<char>) -> Seq<char> {
    match sp {
        None => def,
        Some(p) => s.subrange(p.0 as int, p.1 as int),
    }
}

fn is_space_char(c: char) -> (b: bool)
    ensures
        b == is_space(c),
{
    c == ' ' || c == '\t' || c == '\r' || c == '\n'
}

proof fn lemma_trim_front_step(s: Seq<char>, a: int, b: int)
    requires
        0 <= a < b <= s.len(),
        is_space(s[a]),
    ensures
        trim_front(s.subrange(a, b)) == trim_front(s.subrange(a + 1, b)),
{
    assert(s.subrange(a, b).drop_first() =~= s.subrange(a + 1, b));
}

proof fn lemma_trim_back_step(s: Seq<char>, a: int, b: int)
    requires
        0 <= a < b <= s.len(),
        is_space(s[b - 1]),
    ensures
        trim_back(s.subrange(a, b)) == trim_back(s.subrange(a, b - 1)),
{
    assert(s.subrange(a, b).drop_last() =~= s.subrange(a, b - 1));
}

/// Narrow `[a0, b0)` to the spanned text with surrounding blanks removed.
fn trim_span(s: &str, a0: usize, b0: usize) -> (r: (usize, usize))
    requires
        a0 <= b0 <= s@.len(),
    ensures
        a0 <= r.0 <= r.1 <= b0,
        s@.subrange(r.0 as int, r.1 as int) == trimmed(s@.subrange(a0 as int, b0 as int)),
{
    let mut a = a0;
    let mut b = b0;
    while a < b && is_space_char(s.get_char(a))
        invariant
            a0 <= a <= b,
            b == b0 <= s@.len(),
            trim_front(s@.subrange(a0 as int, b0 as int)) == trim_front(
                s@.subrange(a as int, b0 as int),
            ),
        decreases b - a,
    {
        proof {
            lemma_trim_front_step(s@, a as int, b0 as int);
        }
        a += 1;
    }
    proof {
        assert(trim_front(s@.subrange(a as int, b0 as int)) == s@.subrange(a as int, b0 as int));
    }
    while b > a && is_space_char(s.get_char(b - 1))
        invariant
            a <= b <= b0 <= s@.len(),
            trim_back(s@.subrange(a as int, b0 as int)) == trim_back(
                s@.subrange(a as int, b as int),
            ),
        decreases b - a,
    {
        proof {
            lemma_trim_back_step(s@, a as int, b as int);
        }
        b -= 1;
    }
    proof {
        assert(trim_back(s@.subrange(a as int, b as int)) == s@.subrange(a as int, b as int));
    }
    (a, b)
}

/// Does `key` sit at position `ls` of `s`, wholly before `e2`?
fn has_prefix(s: &str, ls: usize, e2: usize, key: &str) -> (b: bool)
    requires
        ls <= e2 <= s@.len(),
    ensures
        b == (ls + key@.len() <= e2 && s@.subrange(ls as int, ls + key@.len()) == key@),
{
    let kn = key.unicode_len();
    if kn > e2 - ls {
        return false;
    }
    let mut k: usize = 0;
    while k < kn
        invariant
            k <= kn,
            ls + kn <= e2 <= s@.len(),
            kn == key@.len(),
            forall|t: int| 0 <= t < k ==> s@[ls + t] == #[trigger] key@[t],
        decreases kn - k,
    {
        if s.get_char(ls + k) != key.get_char(k) {
            proof {
                assert(s@.subrange(ls as int, ls + kn)[k as int] == s@[ls + k]);
            }
            return false;
        }
        k += 1;
    }
    proof {
        assert(s@.subrange(ls as int, ls + kn) =~= key@);
    }
    true
}

/// Apply the line spanning `[ls, e)` (its newline excluded) to the spans.
fn handle_line(
    s: &str,
    ls: usize,
    e: usize,
    bg: Option<(usize, usize)>,
    bd: Option<(usize, usize)>,
) -> (r: (Option<(usize, usize)>, Option<(usize, usize)>))
    requires
        ls <= e <= s@.len(),
        span_ok(bg, s@.len() as int),
        span_ok(bd, s@.len() as int),
    ensures
        span_ok(r.0, s@.len() as int),
        span_ok(r.1, s@.len() as int),
        (span_val(s@, r.0, default_background()), span_val(s@, r.1, default_border()))
            == apply_line(
            strip_cr(s@.subrange(ls as int, e as int)),
            span_val(s@, bg, default_background()),
            span_val(s@, bd, default_border()),
        ),
{
    let e2 = if e > ls && s.get_char(e - 1) == '\r' {
        e - 1
    } else {
        e
    };
    proof {
        assert(strip_cr(s@.subrange(ls as int, e as int)) =~= s@.subrange(ls as int, e2 as int));
    }
    let ghost line = s@.subrange(ls as int, e2 as int);
    if has_prefix(s, ls, e2, "background=") {
        let kn = "background=".unicode_len();
        proof {
            assert(line.subrange(0, background_key().len() as int) =~= s@.subrange(
                ls as int,
                ls + background_key().len(),
            ));
            assert(line.skip(background_key().len() as int) =~= s@.subrange(
                ls + background_key().len(),
                e2 as int,
            ));
        }
        let sp = trim_span(s, ls + kn, e2);
        (Some(sp), bd)
    } else if has_prefix(s, ls, e2, "border=") {
        let kn = "border=".unicode_len();
        proof {
            assert(line.subrange(0, border_key().len() as int) =~= s@.subrange(
                ls as int,
                ls + border_key().len(),
            ));
            assert(line.skip(border_key().len() as int) =~= s@.subrange(
                ls + border_key().len(),
                e2 as int,
            ));
            if line.len() >= background_key().len() && line.subrange(
                0,
                background_key().len() as int,
            ) == background_key() {
                assert(s@.subrange(ls as int, ls + background_key().len()) == background_key());
            }
        }
        let sp = trim_span(s, ls + kn, e2);
        (bg, Some(sp))
    } else {
        proof {
            if line.len() >= background_key().len() && line.subrange(
                0,
                background_key().len() as int,
            ) == background_key() {
                assert(s@.subrange(ls as int, ls + background_key().len()) == background_key());
            }
            if line.len() >= border_key().len() && line.subrange(0, border_key().len() as int)
                == border_key() {
                assert(s@.subrange(ls as int, ls + border_key().len()) == border_key());
            }
        }
        (bg, bd)
    }
}

/// Decide what a configuration text means: both image paths, with defaults
/// for anything the text does not set.
pub fn parse_config(contents: &str) -> (cfg: AppConfig)
    ensures
        cfg.background_path@ == parse_config_spec(contents@).0,
        cfg.border_path@ == parse_config_spec(contents@).1,
{
    let n = contents.unicode_len();
    let mut ls: usize = 0;
    let mut i: usize = 0;
    let mut bg: Option<(usize, usize)> = None;
    let mut bd: Option<(usize, usize)> = None;
    proof {
        assert(contents@.subrange(0, 0) =~= Seq::<char>::empty());
    }
    while i < n
        invariant
            ls <= i <= n,
            n == contents@.len(),
            span_ok(bg, n as int),
            span_ok(bd, n as int),
            parse_walk(
                contents@,
                i as int,
                contents@.subrange(ls as int, i as int),
                span_val(contents@, bg, default_background()),
                span_val(contents@, bd, default_border()),
            ) == parse_config_spec(contents@),
        decreases n - i,
    {
        let c = contents.get_char(i);
        let ghost cur = contents@.subrange(ls as int, i as int);
        if c == '\n' {
            let r = handle_line(contents, ls, i, bg, bd);
            bg = r.0;
            bd = r.1;
            ls = i + 1;
            proof {
                assert(contents@.subrange(ls as int, ls as int) =~= Seq::<char>::empty());
            }
        } else {
            proof {
                assert(contents@.subrange(ls as int, i + 1) =~= cur.push(contents@[i as int]));
            }
        }
        i += 1;
    }
    if ls < n {
        let r = handle_line(contents, ls, n, bg, bd);
        bg = r.0;
        bd = r.1;
    }
    let background_path = match bg {
        Some(sp) => String::from_str(contents.substring_char(sp.0, sp.1)),
        None => String::from_str("background.png"),
    };
    let border_path = match bd {
        Some(sp) => String::from_str(contents.substring_char(sp.0, sp.1)),
        None => String::from_str("border.png"),
    };
    AppConfig { background_path, border_path }
}

/// Lay a configuration out as the text that [`parse_config`] reads back.
pub fn config_to_string(cfg: &AppConfig) -> (r: String)
    ensures
        r@ == serialized(cfg.background_path@, cfg.border_path@),
{
    let mut out = String::from_str("background=");
    out.append(cfg.background_path.as_str());
    out.append("\n");
    out.append("border=");
    out.append(cfg.border_path.as_str());
    out.append("\n");
    out
}


proof fn lemma_trim_front_len(z: Seq<char>)
    ensures
        trim_front(z).len() <= z.len(),
    decreases z.len(),
{
    if z.len() > 0 && is_space(z.first()) {
        lemma_trim_front_len(z.drop_first());
    }
}

proof fn lemma_trim_back_len(z: Seq<char>)
    ensures
        trim_back(z).len() <= z.len(),
    decreases z.len(),
{
    if z.len() > 0 && is_space(z.last()) {
        lemma_trim_back_len(z.drop_last());
    }
}

/// A value that survives trimming unchanged cannot end in a blank.
proof fn lemma_trimmed_value_last(z: Seq<char>)
    requires
        trimmed(z) == z,
        z.len() > 0,
    ensures
        !is_space(z.last()),
{
    if is_space(z.last()) {
        let u = trim_front(z);
        if u == z {
            lemma_trim_back_len(z.drop_last());
        } else {
            lemma_trim_front_len(z.drop_first());
            lemma_trim_back_len(u);
        }
    }
}

/// Walking a stretch without newlines up to `j` (a newline or the end)
/// finishes the current line there in one piece.
proof fn lemma_walk_line(s: Seq<char>, i: int, j: int, cur: Seq<char>, bg: Seq<char>, bd: Seq<char>)
    requires
        0 <= i <= j <= s.len(),
        forall|k: int| i <= k < j ==> s[k] != '\n',
        j == s.len() || s[j] == '\n',
    ensures
        parse_walk(s, i, cur, bg, bd) == (if j == s.len() {
            if cur.len() + (j - i) > 0 {
                apply_line(strip_cr(cur + s.subrange(i, j)), bg, bd)
            } else {
                (bg, bd)
            }
        } else {
            parse_walk(
                s,
                j + 1,
                Seq::empty(),
                apply_line(strip_cr(cur + s.subrange(i, j)), bg, bd).0,
                apply_line(strip_cr(cur + s.subrange(i, j)), bg, bd).1,
            )
        }),
    decreases j - i,
{
    if i == j {
        assert(cur + s.subrange(i, j) =~= cur);
    } else {
        lemma_walk_line(s, i + 1, j, cur.push(s[i]), bg, bd);
        assert(cur.push(s[i]) + s.subrange(i + 1, j) =~= cur + s.subrange(i, j));
    }
}

/// Does the text contain a line break anywhere?
pub open spec fn has_newline(z: Seq<char>) -> bool {
    (exists|k: int| 0 <= k < z.len() && z[k] == '\n')
}

/// Reading back what was written: a configuration whose paths hold no
/// newline and carry no surrounding blanks survives a save-and-load round
/// trip unchanged.
pub proof fn lemma_config_round_trip(bg: Seq<char>, bd: Seq<char>)
    requires
        has_newline(bg) == false,
        has_newline(bd) == false,
        trimmed(bg) == bg,
        trimmed(bd) == bd,
    ensures
        parse_config_spec(serialized(bg, bd)).0 == bg,
        parse_config_spec(serialized(bg, bd)).1 == bd,
{
    reveal_strlit("background=");
    reveal_strlit("border=");
    reveal_strlit("\n");
    let s = serialized(bg, bd);
    let kb = background_key().len() as int;
    let kr = border_key().len() as int;
    let j1 = kb + bg.len() as int;
    let i2 = j1 + 1;
    let j2 = i2 + kr + bd.len() as int;
    assert(kb == 11);
    assert(kr == 7);
    assert(s.len() == j2 + 1);
    assert(s[j1] == '\n');
    assert(s[j2] == '\n');

    // The first line: the background key followed by its value.
    assert forall|k: int| 0 <= k < j1 implies s[k] != '\n' by {
        if k < kb {
            assert(s[k] == background_key()[k]);
        } else {
            assert(s[k] == bg[k - kb]);
        }
    }
    lemma_walk_line(s, 0, j1, Seq::empty(), default_background(), default_border());
    let line1 = Seq::<char>::empty() + s.subrange(0, j1);
    assert(line1 =~= background_key() + bg);
    if bg.len() > 0 {
        lemma_trimmed_value_last(bg);
        assert(line1.last() == bg.last());
    } else {
        assert(line1.last() == background_key()[10]);
    }
    assert(strip_cr(line1) == line1);
    assert(line1.subrange(0, kb) =~= background_key());
    assert(line1.skip(kb) =~= bg);
    assert(apply_line(line1, default_background(), default_border()) == (
        bg,
        default_border(),
    ));

    // The second line: the border key followed by its value.
    assert forall|k: int| i2 <= k < j2 implies s[k] != '\n' by {
        if k < i2 + kr {
            assert(s[k] == border_key()[k - i2]);
        } else {
            assert(s[k] == bd[k - i2 - kr]);
        }
    }
    lemma_walk_line(s, i2, j2, Seq::empty(), bg, default_border());
    let line2 = Seq::<char>::empty() + s.subrange(i2, j2);
    assert(line2 =~= border_key() + bd);
    if bd.len() > 0 {
        lemma_trimmed_value_last(bd);
        assert(line2.last() == bd.last());
    } else {
        assert(line2.last() == border_key()[6]);
    }
    assert(strip_cr(line2) == line2);
    // The border key is not the background key: they differ right after
    // their shared first letter.
    if line2.len() >= kb {
        assert(line2.subrange(0, kb)[1] == border_key()[1]);
        assert(line2.subrange(0, kb) != background_key());
    }
    assert(line2.subrange(0, kr) =~= border_key());
    assert(line2.skip(kr) =~= bd);
    assert(apply_line(line2, bg, default_border()) == (bg, bd));

    // Nothing follows the final newline.
    assert(parse_walk(s, j2 + 1, Seq::empty(), bg, bd) == (bg, bd));
}

} // verus!
