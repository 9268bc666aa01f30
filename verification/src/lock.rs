//! What happens to the records of a lock: freeze output becomes records, one
//! dependency is bumped, and a fresh freeze is cut down to what the lock
//! already tracked.

use vstd::prelude::*;
use vstd::string::StringExecFns;
use crate::codec::deserialize;
use crate::codec::serialize;
use crate::codec::spec_deserialize;
use crate::codec::spec_serialize;
use crate::codec::Metadata;
use crate::codec::MetadataView;
use crate::error::Error;
use crate::error::ErrorView;
use crate::record::spec_parse_line;
use crate::record::DependencyRecord;
use crate::record::RecordView;
use crate::text::lines;
use crate::text::spec_lines;
use crate::text::views;

verus! {

/// The name that never reaches a lock: an artefact of how some platforms
/// package the installer.
pub open spec fn ignored_name() -> Seq<char> {
    "pkg-resources"@
}

/// Holds of the records that stay when the ignored name is dropped.
pub open spec fn kept() -> spec_fn(RecordView) -> bool {
    |r: RecordView| r.name != ignored_name()
}

/// Some record has this name.
pub open spec fn has_name(records: Seq<RecordView>, name: Seq<char>) -> bool {
    exists|i: int| 0 <= i < records.len() && (#[trigger] records[i]).name == name
}

/// Holds of the records whose name `old` has.
pub open spec fn tracked_by(old: Seq<RecordView>) -> spec_fn(RecordView) -> bool {
    |r: RecordView| has_name(old, r.name)
}

/// Every line as a record, in order; the first line that is none is the error.
pub open spec fn parse_all(lines: Seq<Seq<char>>) -> Result<Seq<RecordView>, ErrorView>
    decreases lines.len(),
{
    if lines.len() == 0 {
        Ok(Seq::empty())
    } else {
        match parse_all(lines.drop_last()) {
            Err(e) => Err(e),
            Ok(records) => match spec_parse_line(lines.last()) {
                Some(r) => Ok(records.push(r)),
                None => Err(ErrorView::MalformedDependencyLine { line: lines.last() }),
            },
        }
    }
}

/// The dependencies that freeze output lists: every line must be a
/// dependency, and the ignored name is dropped afterwards.
pub open spec fn spec_frozen(output: Seq<char>) -> Result<Seq<RecordView>, ErrorView> {
    match parse_all(spec_lines(output)) {
        Ok(records) => Ok(records.filter(kept())),
        Err(e) => Err(e),
    }
}

/// A record pinned anew: to a version, or to a source reference.
pub open spec fn spec_bumped(r: RecordView, version: Seq<char>, use_source_ref: bool) -> RecordView {
    if use_source_ref {
        RecordView { name: r.name, version: Seq::empty(), source_ref: Some(version) }
    } else {
        RecordView { name: r.name, version, source_ref: None }
    }
}

/// The records with each one of that name pinned anew and every other as it
/// was, all in place; an error where none has the name.
pub open spec fn spec_bump_records(
    records: Seq<RecordView>,
    name: Seq<char>,
    version: Seq<char>,
    use_source_ref: bool,
) -> Result<Seq<RecordView>, ErrorView> {
    if has_name(records, name) {
        Ok(
            Seq::new(
                records.len(),
                |i: int|
                    if records[i].name == name {
                        spec_bumped(records[i], version, use_source_ref)
                    } else {
                        records[i]
                    },
            ),
        )
    } else {
        Err(ErrorView::DependencyNotFound { name })
    }
}

/// The text of a lock after a bump, written with the metadata given.
pub open spec fn spec_bump(
    lock: Seq<char>,
    name: Seq<char>,
    version: Seq<char>,
    use_source_ref: bool,
    m: MetadataView,
) -> Result<Seq<char>, ErrorView> {
    match spec_deserialize(lock) {
        Err(e) => Err(e),
        Ok((records, _)) => match spec_bump_records(records, name, version, use_source_ref) {
            Err(e) => Err(e),
            Ok(bumped) => Ok(spec_serialize(bumped, m)),
        },
    }
}

/// The freshly frozen records whose name the old lock has, in their order
/// and with their fresh pins.
pub open spec fn spec_tidy_records(old: Seq<RecordView>, fresh: Seq<RecordView>) -> Seq<
    RecordView,
> {
    fresh.filter(tracked_by(old))
}

/// The text of a lock after a tidy, written with the metadata given.
pub open spec fn spec_tidy(old_lock: Seq<char>, fresh: Seq<RecordView>, m: MetadataView) -> Result<
    Seq<char>,
    ErrorView,
> {
    match spec_deserialize(old_lock) {
        Err(e) => Err(e),
        Ok((old, _)) => Ok(spec_serialize(spec_tidy_records(old, fresh), m)),
    }
}

/// The view of a list of records, or of the error in its place.
pub open spec fn records_view(r: Result<Vec<DependencyRecord>, Error>) -> Result<
    Seq<RecordView>,
    ErrorView,
> {
    match r {
        Ok(records) => Ok(records.deep_view()),
        Err(e) => Err(e@),
    }
}

/// The view of a text, or of the error in its place.
pub open spec fn text_view(r: Result<String, Error>) -> Result<Seq<char>, ErrorView> {
    match r {
        Ok(text) => Ok(text@),
        Err(e) => Err(e@),
    }
}

/// Once a line is no dependency, the lines after it change nothing.
pub proof fn lemma_parse_error_stays(lines: Seq<Seq<char>>, k: int)
    requires
        0 <= k <= lines.len(),
        parse_all(lines.take(k)) is Err,
    ensures
        parse_all(lines) == parse_all(lines.take(k)),
    decreases lines.len() - k,
{
    if k < lines.len() {
        assert(lines.take(k + 1).drop_last() == lines.take(k));
        lemma_parse_error_stays(lines, k + 1);
    } else {
        assert(lines.take(k) == lines);
    }
}

/// No record of the ignored name is among the frozen dependencies, and
/// every other record that the output lists is.
pub proof fn lemma_frozen_drops_ignored(output: Seq<char>)
    requires
        spec_frozen(output) is Ok,
    ensures
        forall|i: int|
            0 <= i < spec_frozen(output)->Ok_0.len() ==> (#[trigger] spec_frozen(
                output,
            )->Ok_0[i]).name != ignored_name(),
        forall|i: int|
            0 <= i < parse_all(spec_lines(output))->Ok_0.len() && (#[trigger] parse_all(
                spec_lines(output),
            )->Ok_0[i]).name != ignored_name() ==> spec_frozen(output)->Ok_0.contains(
                parse_all(spec_lines(output))->Ok_0[i],
            ),
{
    let all = parse_all(spec_lines(output))->Ok_0;
    assert forall|i: int| 0 <= i < all.filter(kept()).len() implies (#[trigger] all.filter(
        kept(),
    )[i]).name != ignored_name() by {
        all.lemma_filter_pred(kept(), i);
    }
    assert forall|i: int| 0 <= i < all.len() && (#[trigger] all[i]).name
        != ignored_name() implies all.filter(kept()).contains(all[i]) by {
        all.lemma_filter_contains(kept(), i);
    }
}

/// A tidied lock holds a freshly frozen record exactly when the old lock
/// has its name: nothing new is tracked, and what is kept has its fresh pin.
pub proof fn lemma_tidy_keeps_tracked(old: Seq<RecordView>, fresh: Seq<RecordView>, r: RecordView)
    ensures
        spec_tidy_records(old, fresh).contains(r) <==> fresh.contains(r) && has_name(old, r.name),
{
    let out = spec_tidy_records(old, fresh);
    if out.contains(r) {
        let i = choose|i: int| 0 <= i < out.len() && out[i] == r;
        fresh.lemma_filter_pred(tracked_by(old), i);
        fresh.lemma_filter_contains_rev(tracked_by(old), r);
    }
    if fresh.contains(r) && has_name(old, r.name) {
        let i = choose|i: int| 0 <= i < fresh.len() && fresh[i] == r;
        fresh.lemma_filter_contains(tracked_by(old), i);
    }
}

/// A bump keeps the number of records and their order, changes no record
/// of another name, and gives each record of the name its new pin.
pub proof fn lemma_bump_in_place(
    records: Seq<RecordView>,
    name: Seq<char>,
    version: Seq<char>,
    use_source_ref: bool,
)
    requires
        has_name(records, name),
    ensures
        spec_bump_records(records, name, version, use_source_ref) is Ok,
        spec_bump_records(records, name, version, use_source_ref)->Ok_0.len() == records.len(),
        forall|i: int|
            0 <= i < records.len() ==> (#[trigger] spec_bump_records(
                records,
                name,
                version,
                use_source_ref,
            )->Ok_0[i]).name == records[i].name,
        forall|i: int|
            0 <= i < records.len() && records[i].name != name ==> (#[trigger] spec_bump_records(
                records,
                name,
                version,
                use_source_ref,
            )->Ok_0[i]) == records[i],
        forall|i: int|
            0 <= i < records.len() && records[i].name == name ==> (#[trigger] spec_bump_records(
                records,
                name,
                version,
                use_source_ref,
            )->Ok_0[i]) == spec_bumped(records[i], version, use_source_ref),
{
}

/// Whether some record has this name.
pub fn names(records: &Vec<DependencyRecord>, name: &String) -> (found: bool)
    ensures
        found == has_name(records.deep_view(), name@),
{
    let mut i: usize = 0;
    while i < records.len()
        invariant
            i <= records@.len(),
            forall|k: int| 0 <= k < i ==> (#[trigger] records.deep_view()[k]).name != name@,
        decreases records@.len() - i,
    {
        if records[i].name == *name {
            assert(records.deep_view()[i as int].name == name@);
            return true;
        }
        i = i + 1;
    }
    false
}

/// The records without those of the ignored name. This is the one place
/// where that name is dropped.
pub fn without_ignored(records: &Vec<DependencyRecord>) -> (out: Vec<DependencyRecord>)
    ensures
        out.deep_view() == records.deep_view().filter(kept()),
{
    let ignored = String::from_str("pkg-resources");
    let mut out: Vec<DependencyRecord> = Vec::new();
    let mut i: usize = 0;
    proof {
        reveal(Seq::filter);
        assert(records.deep_view().take(0) == Seq::<RecordView>::empty());
        assert(out.deep_view() == Seq::<RecordView>::empty());
    }
    while i < records.len()
        invariant
            i <= records@.len(),
            ignored@ == ignored_name(),
            out.deep_view() == records.deep_view().take(i as int).filter(kept()),
        decreases records@.len() - i,
    {
        proof {
            reveal(Seq::filter);
            assert(records.deep_view().take(i + 1).drop_last() == records.deep_view().take(
                i as int,
            ));
        }
        if records[i].name != ignored {
            let ghost before = out.deep_view();
            let r = records[i].duplicate();
            out.push(r);
            assert(out.deep_view() == before.push(r@));
        }
        i = i + 1;
    }
    proof {
        assert(records.deep_view().take(i as int) == records.deep_view());
    }
    out
}

/// The dependencies that the installer's freeze output lists.
pub fn frozen_dependencies(output: &str) -> (res: Result<Vec<DependencyRecord>, Error>)
    ensures
        records_view(res) == spec_frozen(output@),
{
    let all = lines(output);
    let mut records: Vec<DependencyRecord> = Vec::new();
    let mut i: usize = 0;
    assert(views(all@).take(0) == Seq::<Seq<char>>::empty());
    assert(records.deep_view() == Seq::<RecordView>::empty());
    while i < all.len()
        invariant
            i <= all@.len(),
            views(all@) == spec_lines(output@),
            parse_all(views(all@).take(i as int)) == Ok::<_, ErrorView>(records.deep_view()),
        decreases all@.len() - i,
    {
        proof {
            assert(views(all@).take(i + 1).drop_last() == views(all@).take(i as int));
            assert(views(all@).take(i + 1).last() == all@[i as int]@);
        }
        match DependencyRecord::parse_freeze_line(all[i].as_str()) {
            Ok(r) => {
                let ghost before = records.deep_view();
                records.push(r);
                assert(records.deep_view() == before.push(r@));
            },
            Err(e) => {
                proof {
                    lemma_parse_error_stays(views(all@), i + 1);
                }
                return Err(e);
            },
        }
        i = i + 1;
    }
    proof {
        assert(views(all@).take(i as int) == views(all@));
    }
    Ok(without_ignored(&records))
}

/// Pins every record of that name anew and leaves the others as they are.
/// Nothing is added: a name that no record has is an error.
pub fn bump_records(
    records: &Vec<DependencyRecord>,
    name: &str,
    new_version: &str,
    use_source_ref: bool,
) -> (res: Result<Vec<DependencyRecord>, Error>)
    ensures
        records_view(res) == spec_bump_records(
            records.deep_view(),
            name@,
            new_version@,
            use_source_ref,
        ),
{
    let wanted = name.to_owned();
    if !names(records, &wanted) {
        return Err(Error::DependencyNotFound { name: wanted });
    }
    let mut out: Vec<DependencyRecord> = Vec::new();
    let mut i: usize = 0;
    while i < records.len()
        invariant
            i <= records@.len(),
            wanted@ == name@,
            out@.len() == i,
            forall|k: int|
                0 <= k < i ==> (#[trigger] out.deep_view()[k]) == (if records.deep_view()[k].name
                    == name@ {
                    spec_bumped(records.deep_view()[k], new_version@, use_source_ref)
                } else {
                    records.deep_view()[k]
                }),
        decreases records@.len() - i,
    {
        let ghost before = out.deep_view();
        let r = if records[i].name == wanted {
            if use_source_ref {
                DependencyRecord {
                    name: records[i].name.clone(),
                    version: String::new(),
                    source_ref: Some(new_version.to_owned()),
                }
            } else {
                DependencyRecord {
                    name: records[i].name.clone(),
                    version: new_version.to_owned(),
                    source_ref: None,
                }
            }
        } else {
            records[i].duplicate()
        };
        out.push(r);
        assert(out.deep_view() == before.push(r@));
        i = i + 1;
    }
    assert(out.deep_view() == spec_bump_records(
        records.deep_view(),
        name@,
        new_version@,
        use_source_ref,
    )->Ok_0);
    Ok(out)
}

/// The text of a lock with one dependency pinned anew. The rest of the lock
/// keeps its records and their order; the header is written from `metadata`.
pub fn bump(
    lock: &str,
    name: &str,
    new_version: &str,
    use_source_ref: bool,
    metadata: &Metadata,
) -> (res: Result<String, Error>)
    ensures
        text_view(res) == spec_bump(lock@, name@, new_version@, use_source_ref, metadata@),
{
    match deserialize(lock) {
        Err(e) => Err(e),
        Ok((records, _)) => match bump_records(&records, name, new_version, use_source_ref) {
            Err(e) => Err(e),
            Ok(bumped) => Ok(serialize(&bumped, metadata)),
        },
    }
}

/// Of the freshly frozen records, those whose name the old lock has.
pub fn tidy_records(old: &Vec<DependencyRecord>, fresh: &Vec<DependencyRecord>) -> (out: Vec<
    DependencyRecord,
>)
    ensures
        out.deep_view() == spec_tidy_records(old.deep_view(), fresh.deep_view()),
{
    let mut out: Vec<DependencyRecord> = Vec::new();
    let mut i: usize = 0;
    proof {
        reveal(Seq::filter);
        assert(fresh.deep_view().take(0) == Seq::<RecordView>::empty());
        assert(out.deep_view() == Seq::<RecordView>::empty());
    }
    while i < fresh.len()
        invariant
            i <= fresh@.len(),
            out.deep_view() == fresh.deep_view().take(i as int).filter(tracked_by(old.deep_view())),
        decreases fresh@.len() - i,
    {
        proof {
            reveal(Seq::filter);
            assert(fresh.deep_view().take(i + 1).drop_last() == fresh.deep_view().take(i as int));
        }
        if names(old, &fresh[i].name) {
            let ghost before = out.deep_view();
            let r = fresh[i].duplicate();
            out.push(r);
            assert(out.deep_view() == before.push(r@));
        }
        i = i + 1;
    }
    proof {
        assert(fresh.deep_view().take(i as int) == fresh.deep_view());
    }
    out
}

/// The text of a lock cut down to what it already tracked: the freshly
/// frozen records whose name the old lock has, under a fresh header.
pub fn tidy(old_lock: &str, fresh: &Vec<DependencyRecord>, metadata: &Metadata) -> (res: Result<
    String,
    Error,
>)
    ensures
        text_view(res) == spec_tidy(old_lock@, fresh.deep_view(), metadata@),
{
    match deserialize(old_lock) {
        Err(e) => Err(e),
        Ok((old, _)) => {
            let reduced = tidy_records(&old, fresh);
            Ok(serialize(&reduced, metadata))
        },
    }
}

} // verus!
