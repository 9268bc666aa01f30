//! One pinned dependency, and the line that stands for it in the installer's
//! freeze output and in a lock.

use vstd::prelude::*;
use vstd::string::StrSliceExecFns;
use vstd::string::StringExecFns;
use crate::error::Error;
use crate::error::ErrorView;
use crate::text::to_chars;

verus! {

/// A dependency pinned to a registry version (`name==version`), or to a
/// source reference (`name @ reference`, with an empty version).
#[derive(Debug, Clone, PartialEq, Eq)]
pub struct DependencyRecord {
    pub name: String,
    pub version: String,
    pub source_ref: Option<String>,
}

/// A [`DependencyRecord`] with each text as a sequence of characters.
pub struct RecordView {
    pub name: Seq<char>,
    pub version: Seq<char>,
    pub source_ref: Option<Seq<char>>,
}

impl View for DependencyRecord {
    type V = RecordView;

    open spec fn view(&self) -> RecordView {
        RecordView {
            name: self.name@,
            version: self.version@,
            source_ref: match self.source_ref {
                Some(r) => Some(r@),
                None => None,
            },
        }
    }
}

impl DeepView for DependencyRecord {
    type V = RecordView;

    open spec fn deep_view(&self) -> RecordView {
        self@
    }
}

/// The characters a dependency's name is made of.
pub open spec fn is_name_char(c: char) -> bool {
    ('a' <= c && c <= 'z') || ('A' <= c && c <= 'Z') || ('0' <= c && c <= '9') || c == '.' || c
        == '_' || c == '-'
}

/// A name is not empty and holds name characters only.
pub open spec fn valid_name(s: Seq<char>) -> bool {
    s.len() > 0 && forall|i: int| 0 <= i < s.len() ==> is_name_char(#[trigger] s[i])
}

/// Number of name characters in a row from `pos` on.
pub open spec fn name_run(s: Seq<char>, pos: int) -> nat
    decreases s.len() - pos,
{
    if pos < 0 || pos >= s.len() || !is_name_char(s[pos]) {
        0
    } else {
        1 + name_run(s, pos + 1)
    }
}

impl RecordView {
    /// The record has a valid name and exactly one pin: a version and no
    /// reference, or a reference and no version.
    pub open spec fn well_formed(self) -> bool {
        &&& valid_name(self.name)
        &&& match self.source_ref {
            None => self.version.len() > 0,
            Some(r) => r.len() > 0 && self.version.len() == 0,
        }
    }

    /// Well formed, and no pin holds a line break: the record fits on a
    /// line of a lock.
    pub open spec fn storable(self) -> bool {
        &&& self.well_formed()
        &&& crate::text::single_line(self.version)
        &&& match self.source_ref {
            None => true,
            Some(r) => crate::text::single_line(r),
        }
    }

    /// The line that stands for the record.
    pub open spec fn render(self) -> Seq<char> {
        match self.source_ref {
            None => self.name + "=="@ + self.version,
            Some(r) => self.name + " @ "@ + r,
        }
    }
}

/// What a line says: the name is the longest run of name characters the
/// line begins with, `==` or ` @ ` follows it, and the rest, which may not
/// be empty, is the version or the reference.
pub open spec fn spec_parse_line(line: Seq<char>) -> Option<RecordView> {
    let n = name_run(line, 0) as int;
    if n > 0 && line.len() > n + 2 && line[n] == '=' && line[n + 1] == '=' {
        Some(RecordView { name: line.take(n), version: line.skip(n + 2), source_ref: None })
    } else if n > 0 && line.len() > n + 3 && line[n] == ' ' && line[n + 1] == '@' && line[n + 2]
        == ' ' {
        Some(
            RecordView {
                name: line.take(n),
                version: Seq::empty(),
                source_ref: Some(line.skip(n + 3)),
            },
        )
    } else {
        None
    }
}

/// The view of what parsing a line gives.
pub open spec fn parsed(r: Result<DependencyRecord, Error>) -> Result<RecordView, ErrorView> {
    match r {
        Ok(d) => Ok(d@),
        Err(e) => Err(e@),
    }
}

/// A run of name characters stays inside the text and ends before the
/// first other character.
pub proof fn lemma_name_run(s: Seq<char>, pos: int)
    requires
        0 <= pos <= s.len(),
    ensures
        pos + name_run(s, pos) <= s.len(),
        pos + name_run(s, pos) < s.len() ==> !is_name_char(s[pos + name_run(s, pos)]),
        forall|i: int| pos <= i < pos + name_run(s, pos) ==> is_name_char(#[trigger] s[i]),
    decreases s.len() - pos,
{
    if pos < s.len() && is_name_char(s[pos]) {
        lemma_name_run(s, pos + 1);
    }
}

/// A text that holds `n` name characters from `pos` on, and then another
/// character or nothing, has a run of `n` there.
pub proof fn lemma_name_run_is(s: Seq<char>, pos: int, n: nat)
    requires
        0 <= pos,
        pos + n <= s.len(),
        forall|i: int| pos <= i < pos + n ==> is_name_char(#[trigger] s[i]),
        pos + n == s.len() || !is_name_char(s[pos + n]),
    ensures
        name_run(s, pos) == n,
    decreases n,
{
    if n > 0 {
        lemma_name_run_is(s, pos + 1, (n - 1) as nat);
    }
}

/// Parsing the line of a well-formed record gives the record back.
pub proof fn lemma_parse_render(r: RecordView)
    requires
        r.well_formed(),
    ensures
        spec_parse_line(r.render()) == Some(r),
{
    reveal_strlit("==");
    reveal_strlit(" @ ");
    let line = r.render();
    let n = r.name.len() as int;
    match r.source_ref {
        None => {
            assert(line.len() == n + 2 + r.version.len());
            assert(line[n] == '=');
            assert(line[n + 1] == '=');
            assert forall|i: int| 0 <= i < n implies is_name_char(#[trigger] line[i]) by {
                assert(line[i] == r.name[i]);
            }
            lemma_name_run_is(line, 0, n as nat);
            assert(line.take(n) == r.name);
            assert(line.skip(n + 2) == r.version);
        },
        Some(x) => {
            assert(line.len() == n + 3 + x.len());
            assert(line[n] == ' ');
            assert(line[n + 1] == '@');
            assert(line[n + 2] == ' ');
            assert forall|i: int| 0 <= i < n implies is_name_char(#[trigger] line[i]) by {
                assert(line[i] == r.name[i]);
            }
            lemma_name_run_is(line, 0, n as nat);
            assert(line.take(n) == r.name);
            assert(line.skip(n + 3) == x);
            assert(r.version == Seq::<char>::empty());
        },
    }
}

/// What a line parses to is well formed, and is written as that line.
pub proof fn lemma_render_parse(line: Seq<char>)
    requires
        spec_parse_line(line) is Some,
    ensures
        spec_parse_line(line)->0.well_formed(),
        spec_parse_line(line)->0.render() == line,
{
    reveal_strlit("==");
    reveal_strlit(" @ ");
    lemma_name_run(line, 0);
    let n = name_run(line, 0) as int;
    let r = spec_parse_line(line)->0;
    assert(r.name == line.take(n));
    if r.source_ref is None {
        assert("=="@ == line.subrange(n, n + 2));
        assert(r.render() == line);
    } else {
        assert(" @ "@ == line.subrange(n, n + 3));
        assert(r.render() == line);
    }
}

/// Two well-formed records that are written as the same line are equal.
pub proof fn lemma_render_injective(a: RecordView, b: RecordView)
    requires
        a.well_formed(),
        b.well_formed(),
        a.render() == b.render(),
    ensures
        a == b,
{
    lemma_parse_render(a);
    lemma_parse_render(b);
}

fn name_char(c: char) -> (r: bool)
    ensures
        r == is_name_char(c),
{
    (c >= 'a' && c <= 'z') || (c >= 'A' && c <= 'Z') || (c >= '0' && c <= '9') || c == '.' || c
        == '_' || c == '-'
}

fn leading_name(v: &Vec<char>) -> (n: usize)
    ensures
        n == name_run(v@, 0),
        n <= v@.len(),
{
    let mut i: usize = 0;
    while i < v.len() && name_char(v[i])
        invariant
            i <= v@.len(),
            name_run(v@, 0) == i + name_run(v@, i as int),
        decreases v@.len() - i,
    {
        i = i + 1;
    }
    i
}

impl DependencyRecord {
    /// Reads one line of freeze output. A line of neither shape is refused,
    /// and the error holds the line.
    pub fn parse_freeze_line(line: &str) -> (res: Result<DependencyRecord, Error>)
        ensures
            parsed(res) == match spec_parse_line(line@) {
                Some(r) => Ok::<RecordView, ErrorView>(r),
                None => Err(ErrorView::MalformedDependencyLine { line: line@ }),
            },
    {
        let chars = to_chars(line);
        let len = chars.len();
        let n = leading_name(&chars);
        if n > 0 && len - n > 2 && chars[n] == '=' && chars[n + 1] == '=' {
            let name = line.substring_char(0, n).to_owned();
            let version = line.substring_char(n + 2, len).to_owned();
            Ok(DependencyRecord { name, version, source_ref: None })
        } else if n > 0 && len - n > 3 && chars[n] == ' ' && chars[n + 1] == '@' && chars[n + 2]
            == ' ' {
            let name = line.substring_char(0, n).to_owned();
            let reference = line.substring_char(n + 3, len).to_owned();
            Ok(DependencyRecord { name, version: String::new(), source_ref: Some(reference) })
        } else {
            Err(Error::MalformedDependencyLine { line: line.to_owned() })
        }
    }

    /// A record with the same contents.
    pub fn duplicate(&self) -> (copy: DependencyRecord)
        ensures
            copy@ == self@,
    {
        let source_ref = match &self.source_ref {
            Some(r) => Some(r.clone()),
            None => None,
        };
        DependencyRecord { name: self.name.clone(), version: self.version.clone(), source_ref }
    }

    /// The line that stands for the record.
    pub fn to_line(&self) -> (line: String)
        ensures
            line@ == self@.render(),
    {
        let mut line = self.name.clone();
        match &self.source_ref {
            None => {
                line.append("==");
                line.append(self.version.as_str());
            },
            Some(r) => {
                line.append(" @ ");
                line.append(r.as_str());
            },
        }
        line
    }
}

} // verus!
