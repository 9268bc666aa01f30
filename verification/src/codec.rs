//! The text of a lock: three comment lines that say what generated it, then
//! one line for each dependency.

use vstd::prelude::*;
use vstd::string::StrSliceExecFns;
use vstd::string::StringExecFns;
use crate::error::Error;
use crate::error::ErrorView;
use crate::record::DependencyRecord;
use crate::record::RecordView;
use crate::record::spec_parse_line;
use crate::text::has_prefix;
use crate::text::lines;
use crate::text::spec_lines;
use crate::text::starts_with;
use crate::text::to_chars;
use crate::text::views;

verus! {

/// What generated a lock.
#[derive(Debug, Clone, PartialEq, Eq)]
pub struct Metadata {
    pub dmenv_version: String,
    pub python_platform: String,
    pub python_version: String,
}

/// A [`Metadata`] with each text as a sequence of characters.
pub struct MetadataView {
    pub dmenv_version: Seq<char>,
    pub python_platform: Seq<char>,
    pub python_version: Seq<char>,
}

impl View for Metadata {
    type V = MetadataView;

    open spec fn view(&self) -> MetadataView {
        MetadataView {
            dmenv_version: self.dmenv_version@,
            python_platform: self.python_platform@,
            python_version: self.python_version@,
        }
    }
}

impl DeepView for Metadata {
    type V = MetadataView;

    open spec fn deep_view(&self) -> MetadataView {
        self@
    }
}

impl MetadataView {
    /// What a lock without a header says of its origin: nothing.
    pub open spec fn blank() -> MetadataView {
        MetadataView {
            dmenv_version: Seq::empty(),
            python_platform: Seq::empty(),
            python_version: Seq::empty(),
        }
    }

    /// No field holds a line break: each fits on a header line.
    pub open spec fn storable(self) -> bool {
        &&& crate::text::single_line(self.dmenv_version)
        &&& crate::text::single_line(self.python_platform)
        &&& crate::text::single_line(self.python_version)
    }
}

/// What the header line of the tool's version begins with.
pub open spec fn tool_key() -> Seq<char> {
    "# dmenv: "@
}

/// What the header line of the interpreter's version begins with.
pub open spec fn python_key() -> Seq<char> {
    "# python: "@
}

/// What the header line of the interpreter's platform begins with.
pub open spec fn platform_key() -> Seq<char> {
    "# platform: "@
}

/// The three header lines of a lock.
pub open spec fn header_lines(m: MetadataView) -> Seq<Seq<char>> {
    seq![
        tool_key() + m.dmenv_version,
        python_key() + m.python_version,
        platform_key() + m.python_platform,
    ]
}

/// The line of each record, in the order given.
pub open spec fn record_lines(records: Seq<RecordView>) -> Seq<Seq<char>> {
    records.map_values(|r: RecordView| r.render())
}

/// The lines one after the other, a line feed behind each.
pub open spec fn join_lines(lines: Seq<Seq<char>>) -> Seq<char>
    decreases lines.len(),
{
    if lines.len() == 0 {
        Seq::empty()
    } else {
        lines[0] + seq!['\n'] + join_lines(lines.drop_first())
    }
}

/// The text of a lock.
pub open spec fn spec_serialize(records: Seq<RecordView>, m: MetadataView) -> Seq<char> {
    join_lines(header_lines(m) + record_lines(records))
}

/// The metadata after a comment line: a header line sets its field, any
/// other comment changes nothing.
pub open spec fn spec_note(m: MetadataView, line: Seq<char>) -> MetadataView {
    if has_prefix(line, tool_key()) {
        MetadataView { dmenv_version: line.skip(tool_key().len() as int), ..m }
    } else if has_prefix(line, python_key()) {
        MetadataView { python_version: line.skip(python_key().len() as int), ..m }
    } else if has_prefix(line, platform_key()) {
        MetadataView { python_platform: line.skip(platform_key().len() as int), ..m }
    } else {
        m
    }
}

/// What one more line adds to what was read: nothing where it is empty,
/// metadata where it is a comment, else a record or the error.
pub open spec fn read_line(
    records: Seq<RecordView>,
    m: MetadataView,
    line: Seq<char>,
) -> Result<(Seq<RecordView>, MetadataView), ErrorView> {
    if line.len() == 0 {
        Ok((records, m))
    } else if line[0] == '#' {
        Ok((records, spec_note(m, line)))
    } else {
        match spec_parse_line(line) {
            Some(r) => Ok((records.push(r), m)),
            None => Err(ErrorView::MalformedDependencyLine { line }),
        }
    }
}

/// What the lines of a lock hold, read from the first line on; the first
/// line that cannot be read is the error.
pub open spec fn read_lines(lines: Seq<Seq<char>>) -> Result<
    (Seq<RecordView>, MetadataView),
    ErrorView,
>
    decreases lines.len(),
{
    if lines.len() == 0 {
        Ok((Seq::empty(), MetadataView::blank()))
    } else {
        match read_lines(lines.drop_last()) {
            Err(e) => Err(e),
            Ok((records, m)) => read_line(records, m, lines.last()),
        }
    }
}

/// What the text of a lock holds.
pub open spec fn spec_deserialize(text: Seq<char>) -> Result<
    (Seq<RecordView>, MetadataView),
    ErrorView,
> {
    read_lines(spec_lines(text))
}

/// The view of what reading a lock gives.
pub open spec fn lock_view(r: Result<(Vec<DependencyRecord>, Metadata), Error>) -> Result<
    (Seq<RecordView>, MetadataView),
    ErrorView,
> {
    match r {
        Ok((records, m)) => Ok((records.deep_view(), m@)),
        Err(e) => Err(e@),
    }
}

/// One more line at the end adds the line and a line feed to the text.
pub proof fn lemma_join_push(lines: Seq<Seq<char>>, line: Seq<char>)
    ensures
        join_lines(lines.push(line)) == join_lines(lines) + line + seq!['\n'],
    decreases lines.len(),
{
    if lines.len() == 0 {
        assert(lines.push(line).drop_first() == Seq::<Seq<char>>::empty());
        assert(join_lines(lines.push(line).drop_first()) == Seq::<char>::empty());
        assert(join_lines(lines) == Seq::<char>::empty());
    } else {
        assert(lines.push(line).drop_first() == lines.drop_first().push(line));
        lemma_join_push(lines.drop_first(), line);
        assert(join_lines(lines.push(line)) == lines[0] + seq!['\n'] + (join_lines(
            lines.drop_first(),
        ) + line + seq!['\n']));
    }
}

/// Once a line cannot be read, the lines after it change nothing.
pub proof fn lemma_read_error_stays(lines: Seq<Seq<char>>, k: int)
    requires
        0 <= k <= lines.len(),
        read_lines(lines.take(k)) is Err,
    ensures
        read_lines(lines) == read_lines(lines.take(k)),
    decreases lines.len() - k,
{
    if k < lines.len() {
        assert(lines.take(k + 1).drop_last() == lines.take(k));
        lemma_read_error_stays(lines, k + 1);
    } else {
        assert(lines.take(k) == lines);
    }
}

/// Lines without a line break, joined, split into the same lines again.
pub proof fn lemma_lines_join(lines: Seq<Seq<char>>)
    requires
        forall|i: int| 0 <= i < lines.len() ==> crate::text::single_line(#[trigger] lines[i]),
    ensures
        spec_lines(join_lines(lines)) == lines,
    decreases lines.len(),
{
    if lines.len() > 0 {
        let first = lines[0];
        let rest = lines.drop_first();
        let head = first + seq!['\n'];
        let text = join_lines(lines);
        assert(text == head + join_lines(rest));
        assert(crate::text::single_line(first));
        assert forall|i: int| 0 <= i < first.len() implies text[i] != '\n' by {
            assert(text[i] == first[i]);
        }
        assert(text[first.len() as int] == '\n');
        crate::text::lemma_run_len_is(text, '\n', 0, first.len());
        assert(text.subrange(0, first.len() as int) == first);
        assert(crate::text::strip_cr(first) == first);
        assert forall|i: int| 0 <= i < rest.len() implies crate::text::single_line(
            #[trigger] rest[i],
        ) by {
            assert(rest[i] == lines[i + 1]);
        }
        lemma_lines_join(rest);
        crate::text::lemma_lines_shift(head, join_lines(rest), 0);
        assert(seq![first] + rest == lines);
    }
}

/// The header lines alone read as no record and the metadata they were
/// written from.
pub proof fn lemma_read_header(m: MetadataView)
    ensures
        read_lines(header_lines(m)) == Ok::<_, ErrorView>((Seq::<RecordView>::empty(), m)),
{
    reveal_strlit("# dmenv: ");
    reveal_strlit("# python: ");
    reveal_strlit("# platform: ");
    let h = header_lines(m);
    let none = Seq::<RecordView>::empty();
    let h0 = h.take(0);
    let h1 = h.take(1);
    let h2 = h.take(2);
    assert(h.drop_last() == h2);
    assert(h2.drop_last() == h1);
    assert(h1.drop_last() == h0);
    assert(read_lines(h0) == Ok::<_, ErrorView>((none, MetadataView::blank())));
    let m1 = MetadataView { dmenv_version: m.dmenv_version, ..MetadataView::blank() };
    assert(spec_note(MetadataView::blank(), h[0]) == m1) by {
        assert(h[0].take(tool_key().len() as int) == tool_key());
        assert(h[0].skip(tool_key().len() as int) == m.dmenv_version);
    }
    assert(h[0][0] == '#');
    assert(read_lines(h1) == Ok::<_, ErrorView>((none, m1)));
    let m2 = MetadataView { python_version: m.python_version, ..m1 };
    assert(spec_note(m1, h[1]) == m2) by {
        assert(h[1][2] == 'p');
        assert(!has_prefix(h[1], tool_key())) by {
            if has_prefix(h[1], tool_key()) {
                assert(h[1].take(tool_key().len() as int)[2] == tool_key()[2]);
            }
        }
        assert(h[1].take(python_key().len() as int) == python_key());
        assert(h[1].skip(python_key().len() as int) == m.python_version);
    }
    assert(h[1][0] == '#');
    assert(read_lines(h2) == Ok::<_, ErrorView>((none, m2)));
    assert(spec_note(m2, h[2]) == m) by {
        assert(h[2][2] == 'p');
        assert(h[2][3] == 'l');
        assert(!has_prefix(h[2], tool_key())) by {
            if has_prefix(h[2], tool_key()) {
                assert(h[2].take(tool_key().len() as int)[2] == tool_key()[2]);
            }
        }
        assert(!has_prefix(h[2], python_key())) by {
            if has_prefix(h[2], python_key()) {
                assert(h[2].take(python_key().len() as int)[3] == python_key()[3]);
            }
        }
        assert(h[2].take(platform_key().len() as int) == platform_key());
        assert(h[2].skip(platform_key().len() as int) == m.python_platform);
    }
    assert(h[2][0] == '#');
}

/// Behind lines that were read, the lines of well-formed records read as
/// those records, added in order.
pub proof fn lemma_read_records(
    before: Seq<Seq<char>>,
    have: Seq<RecordView>,
    m: MetadataView,
    records: Seq<RecordView>,
)
    requires
        read_lines(before) == Ok::<_, ErrorView>((have, m)),
        forall|i: int| 0 <= i < records.len() ==> (#[trigger] records[i]).well_formed(),
    ensures
        read_lines(before + record_lines(records)) == Ok::<_, ErrorView>((have + records, m)),
    decreases records.len(),
{
    if records.len() == 0 {
        assert(before + record_lines(records) == before);
        assert(have + records == have);
    } else {
        let init = records.drop_last();
        let last = records.last();
        let all = before + record_lines(records);
        assert(all.drop_last() == before + record_lines(init));
        assert(all.last() == last.render());
        lemma_read_records(before, have, m, init);
        crate::record::lemma_parse_render(last);
        crate::record::lemma_render_parse(last.render());
        reveal_strlit("==");
        reveal_strlit(" @ ");
        assert(last.render().len() > 0);
        assert(last.render()[0] == last.name[0]);
        assert(crate::record::is_name_char(last.name[0]));
        assert((have + init).push(last) == have + records);
    }
}

/// Reading the text written from records and metadata gives both back, for
/// records and metadata that fit on their lines.
pub proof fn lemma_round_trip(records: Seq<RecordView>, m: MetadataView)
    requires
        forall|i: int| 0 <= i < records.len() ==> (#[trigger] records[i]).storable(),
        m.storable(),
    ensures
        spec_deserialize(spec_serialize(records, m)) == Ok::<_, ErrorView>((records, m)),
{
    let all = header_lines(m) + record_lines(records);
    assert forall|i: int| 0 <= i < all.len() implies crate::text::single_line(
        #[trigger] all[i],
    ) by {
        reveal_strlit("# dmenv: ");
        reveal_strlit("# python: ");
        reveal_strlit("# platform: ");
        reveal_strlit("==");
        reveal_strlit(" @ ");
        if i >= 3 {
            let r = records[i - 3];
            assert(all[i] == r.render());
            assert(r.storable());
            assert forall|k: int| 0 <= k < r.name.len() implies r.name[k] != '\n' && r.name[k]
                != '\r' by {
                assert(crate::record::is_name_char(r.name[k]));
            }
        }
    }
    lemma_lines_join(all);
    lemma_read_header(m);
    lemma_read_records(header_lines(m), Seq::empty(), m, records);
    assert(Seq::<RecordView>::empty() + records == records);
}

fn push_line(text: &mut String, line: &str)
    ensures
        final(text)@ == old(text)@ + line@ + seq!['\n'],
{
    text.append(line);
    text.append("\n");
    proof {
        reveal_strlit("\n");
        assert("\n"@ == seq!['\n']);
    }
}

fn keyed(key: &str, value: &String) -> (line: String)
    ensures
        line@ == key@ + value@,
{
    let mut line = String::from_str(key);
    line.append(value.as_str());
    line
}

/// The text of a lock: the header, then the records in the order given.
pub fn serialize(records: &Vec<DependencyRecord>, metadata: &Metadata) -> (text: String)
    ensures
        text@ == spec_serialize(records.deep_view(), metadata@),
{
    let ghost head = header_lines(metadata@);
    let ghost body = record_lines(records.deep_view());
    let mut text = String::new();
    let tool = keyed("# dmenv: ", &metadata.dmenv_version);
    let python = keyed("# python: ", &metadata.python_version);
    let platform = keyed("# platform: ", &metadata.python_platform);
    proof {
        let none = Seq::<Seq<char>>::empty();
        lemma_join_push(none, head[0]);
        lemma_join_push(none.push(head[0]), head[1]);
        lemma_join_push(none.push(head[0]).push(head[1]), head[2]);
        assert(none.push(head[0]).push(head[1]).push(head[2]) == head + body.take(0));
        assert(join_lines(none) == Seq::<char>::empty());
    }
    push_line(&mut text, tool.as_str());
    push_line(&mut text, python.as_str());
    push_line(&mut text, platform.as_str());
    let mut i: usize = 0;
    while i < records.len()
        invariant
            i <= records@.len(),
            head == header_lines(metadata@),
            body == record_lines(records.deep_view()),
            body.len() == records@.len(),
            text@ == join_lines(head + body.take(i as int)),
        decreases records@.len() - i,
    {
        let line = records[i].to_line();
        proof {
            assert(body[i as int] == records@[i as int]@.render());
            assert(head + body.take(i + 1) == (head + body.take(i as int)).push(line@));
            lemma_join_push(head + body.take(i as int), line@);
        }
        push_line(&mut text, line.as_str());
        i = i + 1;
    }
    proof {
        assert(body.take(i as int) == body);
    }
    text
}

fn note(m: Metadata, line: &str, chars: &Vec<char>) -> (out: Metadata)
    requires
        chars@ == line@,
    ensures
        out@ == spec_note(m@, line@),
{
    let tool = to_chars("# dmenv: ");
    let python = to_chars("# python: ");
    let platform = to_chars("# platform: ");
    let len = chars.len();
    if starts_with(chars, &tool) {
        let value = line.substring_char(tool.len(), len).to_owned();
        Metadata { dmenv_version: value, ..m }
    } else if starts_with(chars, &python) {
        let value = line.substring_char(python.len(), len).to_owned();
        Metadata { python_version: value, ..m }
    } else if starts_with(chars, &platform) {
        let value = line.substring_char(platform.len(), len).to_owned();
        Metadata { python_platform: value, ..m }
    } else {
        m
    }
}

/// Reads the text of a lock: its records in order, and what its header
/// says. Empty lines and other comments are passed over; the first other
/// line that is no dependency is the error.
pub fn deserialize(text: &str) -> (res: Result<(Vec<DependencyRecord>, Metadata), Error>)
    ensures
        lock_view(res) == spec_deserialize(text@),
{
    let all = lines(text);
    let mut records: Vec<DependencyRecord> = Vec::new();
    let mut m = Metadata {
        dmenv_version: String::new(),
        python_platform: String::new(),
        python_version: String::new(),
    };
    let mut i: usize = 0;
    assert(views(all@).take(0) == Seq::<Seq<char>>::empty());
    assert(records.deep_view() == Seq::<RecordView>::empty());
    while i < all.len()
        invariant
            i <= all@.len(),
            views(all@) == spec_lines(text@),
            read_lines(views(all@).take(i as int)) == Ok::<_, ErrorView>((records.deep_view(), m@)),
        decreases all@.len() - i,
    {
        let line = all[i].as_str();
        let chars = to_chars(line);
        proof {
            assert(views(all@).take(i + 1).drop_last() == views(all@).take(i as int));
            assert(views(all@).take(i + 1).last() == line@);
        }
        if chars.len() == 0 {
        } else if chars[0] == '#' {
            m = note(m, line, &chars);
        } else {
            match DependencyRecord::parse_freeze_line(line) {
                Ok(r) => {
                    let ghost before = records.deep_view();
                    records.push(r);
                    assert(records.deep_view() == before.push(r@));
                },
                Err(e) => {
                    proof {
                        lemma_read_error_stays(views(all@), i + 1);
                    }
                    return Err(e);
                },
            }
        }
        i = i + 1;
    }
    proof {
        assert(views(all@).take(i as int) == views(all@));
    }
    Ok((records, m))
}

} // verus!
