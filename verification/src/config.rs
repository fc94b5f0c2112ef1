//! The saved settings: six text fields kept as `KEY="value"` lines.
use vstd::prelude::*;
use crate::text::{
    find_char, line_at, line_end, lemma_line_end_at, lemma_line_end_bounds, next_line, index_of_char, is_space, lemma_index_of_char_at, lemma_trimmed_unchanged, push_char,
    range_is, string_of, to_chars, trim_bounds, trimmed,
};

verus! {

/// The settings of the tool: repository directory (relative to the program's
/// own directory), Git identity, remote name, GitHub repository
/// (`username/repository`) and the default branch.
#[derive(Debug, Clone)]
pub struct Config {
    pub dir: String,
    pub git_name: String,
    pub git_email: String,
    pub git_remote_name: String,
    pub git_remote_repo: String,
    pub git_branch: String,
}

/// The settings as six character sequences.
pub struct ConfigView {
    pub dir: Seq<char>,
    pub git_name: Seq<char>,
    pub git_email: Seq<char>,
    pub git_remote_name: Seq<char>,
    pub git_remote_repo: Seq<char>,
    pub git_branch: Seq<char>,
}

impl View for Config {
    type V = ConfigView;

    open spec fn view(&self) -> ConfigView {
        ConfigView {
            dir: self.dir@,
            git_name: self.git_name@,
            git_email: self.git_email@,
            git_remote_name: self.git_remote_name@,
            git_remote_repo: self.git_remote_repo@,
            git_branch: self.git_branch@,
        }
    }
}

/// All six fields empty.
pub open spec fn empty_config() -> ConfigView {
    ConfigView {
        dir: Seq::empty(),
        git_name: Seq::empty(),
        git_email: Seq::empty(),
        git_remote_name: Seq::empty(),
        git_remote_repo: Seq::empty(),
        git_branch: Seq::empty(),
    }
}

/// `c` with the field that `key` names set to `value`; unknown keys change nothing.
pub open spec fn with_key(c: ConfigView, key: Seq<char>, value: Seq<char>) -> ConfigView {
    if key == "DIR"@ {
        ConfigView { dir: value, ..c }
    } else if key == "GIT_NAME"@ {
        ConfigView { git_name: value, ..c }
    } else if key == "GIT_EMAIL"@ {
        ConfigView { git_email: value, ..c }
    } else if key == "GIT_REMOTE_NAME"@ {
        ConfigView { git_remote_name: value, ..c }
    } else if key == "GIT_REMOTE_REPO"@ {
        ConfigView { git_remote_repo: value, ..c }
    } else if key == "GIT_BRANCH"@ {
        ConfigView { git_branch: value, ..c }
    } else {
        c
    }
}

/// A value without the pair of double quotes that encloses it, if any.
pub open spec fn unquoted(v: Seq<char>) -> Seq<char> {
    if v.len() >= 2 && v[0] == '"' && v.last() == '"' {
        v.subrange(1, v.len() - 1)
    } else {
        v
    }
}

/// A line that holds no setting: blank, or a `;` or `#` comment.
pub open spec fn is_skipped_line(line: Seq<char>) -> bool {
    line.len() == 0 || line[0] == ';' || line[0] == '#'
}

/// What one line of the settings file does to the settings read so far.
pub open spec fn line_effect(c: ConfigView, raw: Seq<char>) -> ConfigView {
    let line = trimmed(raw);
    let i = index_of_char(line, '=');
    if is_skipped_line(line) || i < 0 {
        c
    } else {
        with_key(c, trimmed(line.take(i)), unquoted(trimmed(line.skip(i + 1))))
    }
}

/// A line whose value is a lone double quote: the reader cannot strip a pair
/// of quotes from it and stops (the program panics on it).
pub open spec fn line_unreadable(raw: Seq<char>) -> bool {
    let line = trimmed(raw);
    let i = index_of_char(line, '=');
    !is_skipped_line(line) && i >= 0 && trimmed(line.skip(i + 1)) == seq!['"']
}

/// The settings that the lines from `pos` on make of `acc`.
pub open spec fn config_from(s: Seq<char>, pos: int, acc: ConfigView) -> ConfigView
    decreases s.len() + 1 - pos,
{
    if pos < 0 || pos >= s.len() {
        acc
    } else {
        proof {
            lemma_line_end_bounds(s, pos);
        }
        config_from(s, line_end(s, pos) + 1, line_effect(acc, line_at(s, pos)))
    }
}

/// No line from `pos` on is unreadable.
pub open spec fn readable_from(s: Seq<char>, pos: int) -> bool
    decreases s.len() + 1 - pos,
{
    if pos < 0 || pos >= s.len() {
        true
    } else {
        proof {
            lemma_line_end_bounds(s, pos);
        }
        !line_unreadable(line_at(s, pos)) && readable_from(s, line_end(s, pos) + 1)
    }
}

/// The settings a settings file holds, starting from empty fields; a later
/// line for a key overrides an earlier one.
pub open spec fn config_of_text(s: Seq<char>) -> ConfigView {
    config_from(s, 0, empty_config())
}

/// The settings file can be read without the reader stopping.
pub open spec fn text_readable(s: Seq<char>) -> bool {
    readable_from(s, 0)
}

/// One saved line: `KEY="value"` and a line feed.
pub open spec fn ini_line(key: Seq<char>, value: Seq<char>) -> Seq<char> {
    key + seq!['=', '"'] + value + seq!['"', '\n']
}

/// The text that saving `c` writes.
pub open spec fn ini_text(c: ConfigView) -> Seq<char> {
    ini_line("DIR"@, c.dir) + ini_line("GIT_NAME"@, c.git_name) + ini_line("GIT_EMAIL"@, c.git_email)
        + ini_line("GIT_REMOTE_NAME"@, c.git_remote_name) + ini_line("GIT_REMOTE_REPO"@, c.git_remote_repo)
        + ini_line("GIT_BRANCH"@, c.git_branch)
}

/// The settings are complete when the directory and the user name are set.
pub open spec fn config_complete(c: ConfigView) -> bool {
    c.dir.len() > 0 && c.git_name.len() > 0
}

/// A key that a saved line can carry: not blank at either end, not starting a
/// comment, without `=` or a line feed.
pub open spec fn plain_key(key: Seq<char>) -> bool {
    &&& key.len() > 0
    &&& !is_space(key[0])
    &&& !is_space(key.last())
    &&& key[0] != ';'
    &&& key[0] != '#'
    &&& forall|i: int| 0 <= i < key.len() ==> key[i] != '=' && key[i] != '\n'
}

/// No field holds a line feed.
pub open spec fn single_line_fields(c: ConfigView) -> bool {
    &&& !c.dir.contains('\n')
    &&& !c.git_name.contains('\n')
    &&& !c.git_email.contains('\n')
    &&& !c.git_remote_name.contains('\n')
    &&& !c.git_remote_repo.contains('\n')
    &&& !c.git_branch.contains('\n')
}

/// Reading a saved line sets the field of its key to its value.
pub proof fn lemma_saved_line(
    s: Seq<char>,
    pos: int,
    key: Seq<char>,
    value: Seq<char>,
    acc: ConfigView,
)
    requires
        0 <= pos,
        pos + ini_line(key, value).len() <= s.len(),
        s.subrange(pos, pos + ini_line(key, value).len()) == ini_line(key, value),
        plain_key(key),
        !value.contains('\n'),
    ensures
        config_from(s, pos, acc) == config_from(
            s,
            pos + ini_line(key, value).len(),
            with_key(acc, key, value),
        ),
        readable_from(s, pos) == readable_from(s, pos + ini_line(key, value).len()),
{
    let l = ini_line(key, value);
    let k = l.len() - 1;
    let m = key + seq!['=', '"'] + value + seq!['"'];
    assert(l =~= m.push('\n'));
    assert forall|j: int| pos <= j < pos + k implies s[j] != '\n' by {
        assert(s[j] == l[j - pos]);
        assert(l[j - pos] == m[j - pos]);
        if j - pos >= key.len() + 2 && j - pos < key.len() + 2 + value.len() {
            assert(m[j - pos] == value[j - pos - key.len() - 2]);
        }
    }
    assert(s[pos + k] == l[k]);
    lemma_line_end_at(s, pos, pos + k);
    let raw = s.subrange(pos, pos + k);
    assert(raw =~= m);
    assert(line_at(s, pos) == m);
    assert(m[0] == key[0]);
    lemma_trimmed_unchanged(m);
    let kl = key.len() as int;
    assert(m[kl] == '=');
    assert forall|j: int| 0 <= j < kl implies m[j] != '=' by {
        assert(m[j] == key[j]);
    }
    lemma_index_of_char_at(m, '=', kl);
    assert(m.take(kl) =~= key);
    lemma_trimmed_unchanged(key);
    let q = m.skip(kl + 1);
    assert(q =~= seq!['"'] + value + seq!['"']);
    lemma_trimmed_unchanged(q);
    assert(q.subrange(1, q.len() - 1) =~= value);
    assert(unquoted(q) == value);
    assert(trimmed(q) != seq!['"']) by {
        assert(trimmed(q).len() >= 2);
    }
    assert(line_effect(acc, m) == with_key(acc, key, value));
}

proof fn lemma_keys_plain()
    ensures
        plain_key("DIR"@),
        plain_key("GIT_NAME"@),
        plain_key("GIT_EMAIL"@),
        plain_key("GIT_REMOTE_NAME"@),
        plain_key("GIT_REMOTE_REPO"@),
        plain_key("GIT_BRANCH"@),
        "DIR"@.len() == 3,
        "GIT_NAME"@.len() == 8,
        "GIT_EMAIL"@.len() == 9,
        "GIT_REMOTE_NAME"@.len() == 15,
        "GIT_REMOTE_REPO"@.len() == 15,
        "GIT_REMOTE_NAME"@ != "GIT_REMOTE_REPO"@,
        "GIT_BRANCH"@.len() == 10,
{
    reveal_strlit("DIR");
    reveal_strlit("GIT_NAME");
    reveal_strlit("GIT_EMAIL");
    reveal_strlit("GIT_REMOTE_NAME");
    reveal_strlit("GIT_REMOTE_REPO");
    reveal_strlit("GIT_BRANCH");
    assert("GIT_REMOTE_NAME"@[11] != "GIT_REMOTE_REPO"@[11]);
}

/// Saving settings and reading the saved text gives the same settings back,
/// for settings whose fields hold no line feed; and the saved text is
/// readable.
pub proof fn lemma_saved_config_reads_back(c: ConfigView)
    requires
        single_line_fields(c),
    ensures
        text_readable(ini_text(c)),
        config_of_text(ini_text(c)) == c,
{
    lemma_keys_plain();
    let l1 = ini_line("DIR"@, c.dir);
    let l2 = ini_line("GIT_NAME"@, c.git_name);
    let l3 = ini_line("GIT_EMAIL"@, c.git_email);
    let l4 = ini_line("GIT_REMOTE_NAME"@, c.git_remote_name);
    let l5 = ini_line("GIT_REMOTE_REPO"@, c.git_remote_repo);
    let l6 = ini_line("GIT_BRANCH"@, c.git_branch);
    let t = ini_text(c);
    let p1 = l1.len() as int;
    let p2 = p1 + l2.len();
    let p3 = p2 + l3.len();
    let p4 = p3 + l4.len();
    let p5 = p4 + l5.len();
    let p6 = p5 + l6.len();
    assert(t.len() == p6);
    assert(t.subrange(0, p1) =~= l1);
    assert(t.subrange(p1, p2) =~= l2);
    assert(t.subrange(p2, p3) =~= l3);
    assert(t.subrange(p3, p4) =~= l4);
    assert(t.subrange(p4, p5) =~= l5);
    assert(t.subrange(p5, p6) =~= l6);
    let a0 = empty_config();
    let a1 = with_key(a0, "DIR"@, c.dir);
    let a2 = with_key(a1, "GIT_NAME"@, c.git_name);
    let a3 = with_key(a2, "GIT_EMAIL"@, c.git_email);
    let a4 = with_key(a3, "GIT_REMOTE_NAME"@, c.git_remote_name);
    let a5 = with_key(a4, "GIT_REMOTE_REPO"@, c.git_remote_repo);
    let a6 = with_key(a5, "GIT_BRANCH"@, c.git_branch);
    lemma_saved_line(t, 0, "DIR"@, c.dir, a0);
    lemma_saved_line(t, p1, "GIT_NAME"@, c.git_name, a1);
    lemma_saved_line(t, p2, "GIT_EMAIL"@, c.git_email, a2);
    lemma_saved_line(t, p3, "GIT_REMOTE_NAME"@, c.git_remote_name, a3);
    lemma_saved_line(t, p4, "GIT_REMOTE_REPO"@, c.git_remote_repo, a4);
    lemma_saved_line(t, p5, "GIT_BRANCH"@, c.git_branch, a5);
    assert(a6 == c);
}

/// Appends the saved line `key="value"` and a line feed.
fn push_ini_line(out: &mut String, key: &str, value: &String)
    ensures
        final(out)@ == old(out)@ + ini_line(key@, value@),
{
    out.append(key);
    push_char(out, '=');
    push_char(out, '"');
    out.append(value.as_str());
    push_char(out, '"');
    push_char(out, '\n');
    assert(out@ =~= old(out)@ + ini_line(key@, value@));
}

impl Default for Config {
    fn default() -> (r: Config)
        ensures
            r@ == empty_config(),
    {
        Config {
            dir: String::new(),
            git_name: String::new(),
            git_email: String::new(),
            git_remote_name: String::new(),
            git_remote_repo: String::new(),
            git_branch: String::new(),
        }
    }
}

/// Splits the line `v[lo..hi]`: `None` for a line without a setting, else the
/// key bounds and the bounds of the trimmed value (quotes still on).
fn split_line(v: &Vec<char>, lo: usize, hi: usize) -> (r: Option<(usize, usize, usize, usize)>)
    requires
        lo <= hi <= v@.len(),
    ensures
        ({
            let line = trimmed(v@.subrange(lo as int, hi as int));
            let i = index_of_char(line, '=');
            match r {
                None => is_skipped_line(line) || i < 0,
                Some((ka, kb, va, vb)) => {
                    &&& !is_skipped_line(line) && i >= 0
                    &&& ka <= kb <= v@.len() && va <= vb <= v@.len()
                    &&& v@.subrange(ka as int, kb as int) == trimmed(line.take(i))
                    &&& v@.subrange(va as int, vb as int) == trimmed(line.skip(i + 1))
                },
            }
        }),
{
    let (a, b) = trim_bounds(v, lo, hi);
    let ghost line = v@.subrange(a as int, b as int);
    if a == b || v[a] == ';' || v[a] == '#' {
        assert(line.len() > 0 ==> line[0] == v@[a as int]);
        return None;
    }
    assert(line[0] == v@[a as int]);
    match find_char(v, a, b, '=') {
        None => None,
        Some(i) => {
            let (ka, kb) = trim_bounds(v, a, i);
            let (va, vb) = trim_bounds(v, i + 1, b);
            assert(line.take(i - a) =~= v@.subrange(a as int, i as int));
            assert(line.skip(i - a + 1) =~= v@.subrange(i + 1, b as int));
            Some((ka, kb, va, vb))
        },
    }
}

impl Config {
    /// The settings are complete when the directory and the user name are set.
    pub fn is_complete(&self) -> (r: bool)
        ensures
            r == config_complete(self@),
    {
        !self.dir.as_str().is_empty() && !self.git_name.as_str().is_empty()
    }

    /// Applies the line `v[lo..hi]` of a settings file.
    fn apply_line(&mut self, v: &Vec<char>, lo: usize, hi: usize)
        requires
            lo <= hi <= v@.len(),
            !line_unreadable(v@.subrange(lo as int, hi as int)),
        ensures
            final(self)@ == line_effect(old(self)@, v@.subrange(lo as int, hi as int)),
    {
        match split_line(v, lo, hi) {
            None => {},
            Some((ka, kb, va, vb)) => {
                let ghost raw = v@.subrange(va as int, vb as int);
                let (qa, qb) = if vb - va >= 2 && v[va] == '"' && v[vb - 1] == '"' {
                    (va + 1, vb - 1)
                } else {
                    (va, vb)
                };
                proof {
                    if raw.len() > 0 {
                        assert(raw[0] == v@[va as int]);
                        assert(raw.last() == v@[vb - 1]);
                    }
                    if qa > va {
                        assert(raw.subrange(1, raw.len() - 1) =~= v@.subrange(qa as int, qb as int));
                    }
                }
                let value = string_of(v, qa, qb);
                if range_is(v, ka, kb, "DIR") {
                    self.dir = value;
                } else if range_is(v, ka, kb, "GIT_NAME") {
                    self.git_name = value;
                } else if range_is(v, ka, kb, "GIT_EMAIL") {
                    self.git_email = value;
                } else if range_is(v, ka, kb, "GIT_REMOTE_NAME") {
                    self.git_remote_name = value;
                } else if range_is(v, ka, kb, "GIT_REMOTE_REPO") {
                    self.git_remote_repo = value;
                } else if range_is(v, ka, kb, "GIT_BRANCH") {
                    self.git_branch = value;
                }
            },
        }
    }

    /// The text that saving writes (the formatting part of `save`): one
    /// `KEY="value"` line per field, in a fixed order.
    pub fn to_ini(&self) -> (r: String)
        ensures
            r@ == ini_text(self@),
    {
        let mut out = String::new();
        push_ini_line(&mut out, "DIR", &self.dir);
        push_ini_line(&mut out, "GIT_NAME", &self.git_name);
        push_ini_line(&mut out, "GIT_EMAIL", &self.git_email);
        push_ini_line(&mut out, "GIT_REMOTE_NAME", &self.git_remote_name);
        push_ini_line(&mut out, "GIT_REMOTE_REPO", &self.git_remote_repo);
        push_ini_line(&mut out, "GIT_BRANCH", &self.git_branch);
        assert(out@ =~= ini_text(self@));
        out
    }

    /// Whether `content` can be read as a settings file: no line holds a
    /// value that is a lone double quote.
    pub fn ini_readable(content: &str) -> (r: bool)
        ensures
            r == text_readable(content@),
    {
        let v = to_chars(content);
        let mut pos: usize = 0;
        while pos < v.len()
            invariant
                v@ == content@,
                pos <= v@.len(),
                text_readable(v@) == readable_from(v@, pos as int),
            decreases v@.len() - pos,
        {
            let (hi, e) = next_line(&v, pos);
            let ok = match split_line(&v, pos, hi) {
                None => true,
                Some((ka, kb, va, vb)) => {
                    let lone = vb - va == 1 && v[va] == '"';
                    proof {
                        let t = v@.subrange(va as int, vb as int);
                        if t.len() == 1 {
                            assert(t[0] == v@[va as int]);
                        }
                        assert(lone == (t =~= seq!['"']));
                    }
                    !lone
                },
            };
            if !ok {
                return false;
            }
            if e == v.len() {
                assert(readable_from(v@, e + 1));
                return true;
            }
            pos = e + 1;
        }
        true
    }

    /// The settings that a settings file holds (the reading part of `load`):
    /// fields start empty, each `KEY=value` line sets its field, a later line
    /// overrides an earlier one; blank lines, `;` and `#` comments, lines
    /// without `=` and unknown keys change nothing.
    pub fn from_ini(content: &str) -> (r: Config)
        requires
            text_readable(content@),
        ensures
            r@ == config_of_text(content@),
    {
        let v = to_chars(content);
        let mut cfg = Config::default();
        let mut pos: usize = 0;
        while pos < v.len()
            invariant
                v@ == content@,
                pos <= v@.len(),
                readable_from(v@, pos as int),
                config_of_text(v@) == config_from(v@, pos as int, cfg@),
            decreases v@.len() - pos,
        {
            let (hi, e) = next_line(&v, pos);
            cfg.apply_line(&v, pos, hi);
            if e == v.len() {
                assert(config_from(v@, e + 1, cfg@) == cfg@);
                return cfg;
            }
            pos = e + 1;
        }
        cfg
    }
}

} // verus!
