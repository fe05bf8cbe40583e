//! The index log of a crate: one record per published version, in the order
//! of publication.

use crate::error::{Error, ErrorView};
use crate::json::{json_parse, member_of, text_member, Json, JsonValue};
use crate::text::{lines, lines_of, owned, text_view};
use crate::version::{semver_parse, Version, VersionView};
use vstd::prelude::*;

verus! {

/// One published version of a crate. The record's dependency list is checked
/// where a record is read, and not kept: nothing here looks into it.
#[derive(Debug, PartialEq, Eq)]
pub struct Entry {
    pub name: String,
    pub vers: Version,
    pub cksum: String,
    pub yanked: bool,
    pub repository: Option<String>,
}

/// What an `Entry` stands for.
pub ghost struct EntryView {
    pub name: Seq<char>,
    pub vers: VersionView,
    pub cksum: Seq<char>,
    pub yanked: bool,
    pub repository: Option<Seq<char>>,
}

impl View for Entry {
    type V = EntryView;

    open spec fn view(&self) -> EntryView {
        EntryView {
            name: self.name@,
            vers: self.vers@,
            cksum: self.cksum@,
            yanked: self.yanked,
            repository: match self.repository {
                Some(url) => Some(url@),
                None => None,
            },
        }
    }
}

impl DeepView for Entry {
    type V = EntryView;

    open spec fn deep_view(&self) -> EntryView {
        self@
    }
}

impl Clone for Entry {
    fn clone(&self) -> (r: Self)
        ensures
            r@ == self@,
    {
        Entry {
            name: self.name.clone(),
            vers: self.vers.clone(),
            cksum: self.cksum.clone(),
            yanked: self.yanked,
            repository: match &self.repository {
                Some(url) => Some(url.clone()),
                None => None,
            },
        }
    }
}

/// The repository that a record names: the member may be missing or `null`,
/// which both mean none, or a string. Anything else makes the record invalid,
/// which the outer `None` says.
pub open spec fn repository_of(doc: JsonValue) -> Option<Option<Seq<char>>> {
    match member_of(doc, "repository"@) {
        None => Some(None),
        Some(JsonValue::Null) => Some(None),
        Some(JsonValue::Text(url)) => Some(Some(url)),
        Some(_) => None,
    }
}

/// The record that a document holds. A record is an object with the strings
/// `name`, `vers` and `cksum`, of which `vers` is a semantic version, the
/// boolean `yanked`, the array `dependencies` and, if it names a repository,
/// the string `repository`.
pub open spec fn entry_of(doc: JsonValue) -> Option<EntryView> {
    match (
        text_member(doc, "name"@),
        text_member(doc, "vers"@),
        text_member(doc, "cksum"@),
        member_of(doc, "yanked"@),
        member_of(doc, "dependencies"@),
        repository_of(doc),
    ) {
        (
            Some(name),
            Some(vers),
            Some(cksum),
            Some(JsonValue::Bool(yanked)),
            Some(JsonValue::Array(_)),
            Some(repository),
        ) => match semver_parse(vers) {
            Some(version) => Some(EntryView { name, vers: version, cksum, yanked, repository }),
            None => None,
        },
        _ => None,
    }
}

/// The record that one line of an index log holds.
pub open spec fn entry_of_line(line: Seq<char>) -> Option<EntryView> {
    match json_parse(line) {
        Some(doc) => entry_of(doc),
        None => None,
    }
}

/// What a search for `version` finds in `lines[from..]`, read one by one: the
/// repository of the first record of that version, `ParsePackage` if a line
/// before it is no record, `VersionNotFoundInDb` if the lines run out.
pub open spec fn repo_url_from(lines: Seq<Seq<char>>, version: VersionView, from: int) -> Result<
    Option<Seq<char>>,
    ErrorView,
>
    decreases lines.len() - from,
{
    if from < 0 || from >= lines.len() {
        Err(ErrorView::VersionNotFoundInDb(version))
    } else {
        match entry_of_line(lines[from]) {
            None => Err(ErrorView::ParsePackage),
            Some(entry) => if entry.vers == version {
                Ok(entry.repository)
            } else {
                repo_url_from(lines, version, from + 1)
            },
        }
    }
}

/// What a search for `version` finds in the text of an index log.
pub open spec fn repo_url_in(index: Seq<char>, version: VersionView) -> Result<
    Option<Seq<char>>,
    ErrorView,
> {
    repo_url_from(lines_of(index), version, 0)
}

/// The view of a search result.
pub open spec fn found_view(found: Result<Option<String>, Error>) -> Result<
    Option<Seq<char>>,
    ErrorView,
> {
    match found {
        Ok(url) => Ok(text_view(url)),
        Err(e) => Err(e@),
    }
}

/// The text of the member `key`, where the document has it and it is a string.
fn text_field(doc: &Json, key: &str) -> (r: Option<String>)
    ensures
        text_view(r) == text_member(doc@, key@),
{
    match doc.member(key) {
        Some(value) => match value.as_text() {
            Some(s) => Some(owned(s)),
            None => None,
        },
        None => None,
    }
}

/// Reads a record from a document.
pub fn entry_from_json(doc: &Json) -> (r: Option<Entry>)
    ensures
        r.deep_view() == entry_of(doc@),
{
    let name = match text_field(doc, "name") {
        Some(s) => s,
        None => {
            return None;
        },
    };
    let vers = match text_field(doc, "vers") {
        Some(s) => s,
        None => {
            return None;
        },
    };
    let cksum = match text_field(doc, "cksum") {
        Some(s) => s,
        None => {
            return None;
        },
    };
    let yanked = match doc.member("yanked") {
        Some(value) => match value.as_bool() {
            Some(b) => b,
            None => {
                return None;
            },
        },
        None => {
            return None;
        },
    };
    match doc.member("dependencies") {
        Some(value) => {
            if value.as_array().is_none() {
                return None;
            }
        },
        None => {
            return None;
        },
    }
    let repository = match doc.member("repository") {
        None => None,
        Some(value) => {
            if value.is_null() {
                None
            } else {
                match value.as_text() {
                    Some(url) => Some(owned(url)),
                    None => {
                        return None;
                    },
                }
            }
        },
    };
    match Version::parse(vers.as_str()) {
        Ok(version) => Some(Entry { name, vers: version, cksum, yanked, repository }),
        Err(_) => None,
    }
}

/// Reads a record from one line of an index log.
pub fn parse_entry(line: &str) -> (r: Option<Entry>)
    ensures
        r.deep_view() == entry_of_line(line@),
{
    match Json::parse(line) {
        Some(doc) => entry_from_json(&doc),
        None => None,
    }
}

/// Searches the text of an index log for `version`, line by line, and gives
/// the repository that its record names. A line that is no record ends the
/// search with `ParsePackage`, unless the version was found before it; where
/// no record has the version, the search ends with `VersionNotFoundInDb`.
pub fn find_repo_url(index: &str, version: Version) -> (r: Result<Option<String>, Error>)
    ensures
        found_view(r) == repo_url_in(index@, version@),
{
    let all = lines(index);
    let mut i: usize = 0;
    while i < all.len()
        invariant
            i <= all.len(),
            all.deep_view() == lines_of(index@),
            repo_url_in(index@, version@) == repo_url_from(lines_of(index@), version@, i as int),
        decreases all.len() - i,
    {
        assert(all.deep_view()[i as int] == all@[i as int]@);
        match parse_entry(all[i].as_str()) {
            None => {
                return Err(Error::ParsePackage);
            },
            Some(entry) => {
                if entry.vers.equals(&version) {
                    return Ok(entry.repository);
                }
            },
        }
        i = i + 1;
    }
    Err(Error::VersionNotFoundInDb(version))
}

/// The place of the first record of `version` in `log[from..]`.
pub open spec fn position_from(log: Seq<EntryView>, version: VersionView, from: int) -> Option<int>
    decreases log.len() - from,
{
    if from < 0 || from >= log.len() {
        None
    } else if log[from].vers == version {
        Some(from)
    } else {
        position_from(log, version, from + 1)
    }
}

/// The place of the first record of `version` in `log`.
pub open spec fn position_of(log: Seq<EntryView>, version: VersionView) -> Option<int> {
    position_from(log, version, 0)
}

/// The record of `version` that a reader of `log` sees.
pub open spec fn lookup(log: Seq<EntryView>, version: VersionView) -> Option<EntryView> {
    match position_of(log, version) {
        Some(i) => Some(log[i]),
        None => None,
    }
}

/// `log` after a record was appended.
pub open spec fn inserted(log: Seq<EntryView>, entry: EntryView) -> Seq<EntryView> {
    log.push(entry)
}

/// `log` after the yanked flag of the record of `version` was set to `flag`;
/// `log` itself where it has no such record.
pub open spec fn flagged(log: Seq<EntryView>, version: VersionView, flag: bool) -> Seq<EntryView> {
    match position_of(log, version) {
        Some(i) => log.update(i, EntryView { yanked: flag, ..log[i] }),
        None => log,
    }
}

/// `position_from` finds a record of the version, and the first one.
pub proof fn lemma_position_from(log: Seq<EntryView>, version: VersionView, from: int)
    requires
        0 <= from,
    ensures
        match position_from(log, version, from) {
            Some(i) => from <= i < log.len() && log[i].vers == version && forall|j: int|
                from <= j < i ==> log[j].vers != version,
            None => forall|j: int| from <= j < log.len() ==> log[j].vers != version,
        },
    decreases log.len() - from,
{
    if from < log.len() && log[from].vers != version {
        lemma_position_from(log, version, from + 1);
    }
}

/// Two logs whose records have the same versions, place by place, are
/// searched alike.
pub proof fn lemma_position_same_versions(
    a: Seq<EntryView>,
    b: Seq<EntryView>,
    version: VersionView,
    from: int,
)
    requires
        0 <= from,
        a.len() == b.len(),
        forall|j: int| 0 <= j < a.len() ==> a[j].vers == b[j].vers,
    ensures
        position_from(a, version, from) == position_from(b, version, from),
    decreases a.len() - from,
{
    if from < a.len() && a[from].vers != version {
        lemma_position_same_versions(a, b, version, from + 1);
    }
}

/// Appending a record leaves every search as it was, but the search for the
/// new record's version where the log had none of that version: that search
/// now finds the new record.
pub proof fn lemma_position_after_insert(
    log: Seq<EntryView>,
    entry: EntryView,
    version: VersionView,
    from: int,
)
    requires
        0 <= from <= log.len(),
    ensures
        position_from(inserted(log, entry), version, from) == (match position_from(
            log,
            version,
            from,
        ) {
            Some(i) => Some(i),
            None => if entry.vers == version {
                Some(log.len() as int)
            } else {
                None
            },
        }),
    decreases log.len() - from,
{
    let after = inserted(log, entry);
    if from < log.len() {
        assert(after[from] == log[from]);
        if log[from].vers != version {
            lemma_position_after_insert(log, entry, version, from + 1);
        }
    } else {
        assert(after[from] == entry);
        assert(position_from(after, version, from + 1) == None::<int>);
    }
}

/// A record that was appended is the record that a lookup of its version
/// gives, provided the log held that version not yet; the records that were
/// there stay, each in its place and unchanged, and every other lookup gives
/// what it gave.
pub proof fn lemma_insert_then_lookup(log: Seq<EntryView>, entry: EntryView)
    ensures
        lookup(log, entry.vers) is None ==> lookup(inserted(log, entry), entry.vers) == Some(
            entry,
        ),
        inserted(log, entry).len() == log.len() + 1,
        forall|i: int| 0 <= i < log.len() ==> inserted(log, entry)[i] == log[i],
        forall|version: VersionView|
            version != entry.vers ==> #[trigger] lookup(inserted(log, entry), version) == lookup(
                log,
                version,
            ),
{
    lemma_position_after_insert(log, entry, entry.vers, 0);
    lemma_position_from(log, entry.vers, 0);
    assert forall|version: VersionView| version != entry.vers implies #[trigger] lookup(
        inserted(log, entry),
        version,
    ) == lookup(log, version) by {
        lemma_position_after_insert(log, entry, version, 0);
        lemma_position_from(log, version, 0);
    }
}

/// Yanking a version and then unyanking it gives the log back as it was,
/// provided its record was not yanked to begin with (or there is none).
pub proof fn lemma_yank_then_unyank(log: Seq<EntryView>, version: VersionView)
    requires
        lookup(log, version) matches Some(entry) ==> !entry.yanked,
    ensures
        flagged(flagged(log, version, true), version, false) == log,
{
    lemma_position_from(log, version, 0);
    let yanked = flagged(log, version, true);
    lemma_position_same_versions(log, yanked, version, 0);
    assert(flagged(yanked, version, false) =~= log);
}

/// Setting the flag of a version twice to the same value is the same as
/// setting it once: the second call changes nothing.
pub proof fn lemma_flag_twice(log: Seq<EntryView>, version: VersionView, flag: bool)
    ensures
        flagged(flagged(log, version, flag), version, flag) == flagged(log, version, flag),
{
    lemma_position_from(log, version, 0);
    let once = flagged(log, version, flag);
    lemma_position_same_versions(log, once, version, 0);
    assert(flagged(once, version, flag) =~= once);
}

/// Setting the flag changes no record but that of the version, and of that
/// record nothing but the flag.
pub proof fn lemma_flag_only(log: Seq<EntryView>, version: VersionView, flag: bool)
    ensures
        flagged(log, version, flag).len() == log.len(),
        forall|i: int|
            0 <= i < log.len() ==> (#[trigger] flagged(log, version, flag)[i]) == (if Some(i)
                == position_of(log, version) {
                EntryView { yanked: flag, ..log[i] }
            } else {
                log[i]
            }),
{
    lemma_position_from(log, version, 0);
}

/// The index log of one crate, held in memory: its records in the order in
/// which they were published.
#[derive(Debug, PartialEq, Eq)]
pub struct IndexLog {
    pub entries: Vec<Entry>,
}

impl View for IndexLog {
    type V = Seq<EntryView>;

    open spec fn view(&self) -> Seq<EntryView> {
        self.entries.deep_view()
    }
}

impl IndexLog {
    /// A log without records.
    pub fn new() -> (r: IndexLog)
        ensures
            r@ == Seq::<EntryView>::empty(),
    {
        let r = IndexLog { entries: Vec::new() };
        assert(r@ =~= Seq::<EntryView>::empty());
        r
    }

    /// The number of records.
    pub fn len(&self) -> (n: usize)
        ensures
            n == self@.len(),
    {
        self.entries.len()
    }

    /// The place of the first record of `version`.
    pub fn position(&self, version: &Version) -> (r: Option<usize>)
        ensures
            match r {
                Some(i) => position_of(self@, version@) == Some(i as int) && i < self@.len(),
                None => position_of(self@, version@) is None,
            },
    {
        let mut i: usize = 0;
        while i < self.entries.len()
            invariant
                i <= self.entries.len(),
                position_of(self@, version@) == position_from(self@, version@, i as int),
            decreases self.entries.len() - i,
        {
            assert(self@[i as int] == self.entries@[i as int]@);
            if self.entries[i].vers.equals(version) {
                return Some(i);
            }
            i = i + 1;
        }
        None
    }

    /// The record of `version`.
    pub fn find(&self, version: &Version) -> (r: Option<&Entry>)
        ensures
            r.deep_view() == lookup(self@, version@),
    {
        match self.position(version) {
            Some(i) => {
                assert(self@[i as int] == self.entries@[i as int]@);
                Some(&self.entries[i])
            },
            None => None,
        }
    }

    /// The repository that the record of `version` names, which may be none;
    /// `VersionNotFoundInDb` where the log has no record of that version.
    pub fn get_repo_url(&self, version: Version) -> (r: Result<Option<String>, Error>)
        ensures
            found_view(r) == (match lookup(self@, version@) {
                Some(entry) => Ok(entry.repository),
                None => Err(ErrorView::VersionNotFoundInDb(version@)),
            }),
    {
        match self.find(&version) {
            Some(entry) => Ok(
                match &entry.repository {
                    Some(url) => Some(url.clone()),
                    None => None,
                },
            ),
            None => Err(Error::VersionNotFoundInDb(version)),
        }
    }

    /// Appends a record. The records that were there stay as they were.
    pub fn insert_package(&mut self, entry: Entry)
        ensures
            final(self)@ == inserted(old(self)@, entry@),
    {
        self.entries.push(entry);
        assert(self@ =~= inserted(old(self)@, entry@));
    }

    /// Sets the yanked flag of the record of `version`. This succeeds whatever
    /// the flag was before, and fails with `VersionNotFoundInDb`, changing
    /// nothing, where the log has no record of that version.
    pub fn set_yanked(&mut self, version: Version, flag: bool) -> (r: Result<(), Error>)
        ensures
            final(self)@ == flagged(old(self)@, version@, flag),
            match r {
                Ok(_) => lookup(old(self)@, version@) is Some,
                Err(e) => lookup(old(self)@, version@) is None && e@
                    == ErrorView::VersionNotFoundInDb(version@),
            },
    {
        match self.position(&version) {
            Some(i) => {
                let ghost before = self@;
                assert(before[i as int] == self.entries@[i as int]@);
                let mut entry = self.entries[i].clone();
                entry.yanked = flag;
                self.entries.set(i, entry);
                assert(self@ =~= flagged(before, version@, flag));
                Ok(())
            },
            None => Err(Error::VersionNotFoundInDb(version)),
        }
    }

    /// Marks `version` as yanked.
    pub fn yank(&mut self, version: Version) -> (r: Result<(), Error>)
        ensures
            final(self)@ == flagged(old(self)@, version@, true),
            match r {
                Ok(_) => lookup(old(self)@, version@) is Some,
                Err(e) => lookup(old(self)@, version@) is None && e@
                    == ErrorView::VersionNotFoundInDb(version@),
            },
    {
        self.set_yanked(version, true)
    }

    /// Marks `version` as published again.
    pub fn unyank(&mut self, version: Version) -> (r: Result<(), Error>)
        ensures
            final(self)@ == flagged(old(self)@, version@, false),
            match r {
                Ok(_) => lookup(old(self)@, version@) is Some,
                Err(e) => lookup(old(self)@, version@) is None && e@
                    == ErrorView::VersionNotFoundInDb(version@),
            },
    {
        self.set_yanked(version, false)
    }
}

} // verus!
