use vstd::prelude::*;
use vstd::string::*;
use crate::log::{Level, Notice};
use crate::text::{decimal, digit, digit_char, pad, pad_to, push_char, push_decimal};

verus! {

/// What a directory entry is.
#[derive(Clone, Copy, Debug, PartialEq, Eq, Structural)]
pub enum EntryKind {
    File,
    Directory,
    Other,
}

/// What enumeration learned of one directory entry: its name, and its kind
/// and size in bytes, or the message of the lookup that failed.
#[derive(Debug)]
pub struct EntryInfo {
    pub name: String,
    pub kind: Result<EntryKind, String>,
    pub size: Result<u64, String>,
}

/// The display-ready summary of one entry.
#[derive(Debug)]
pub struct EntrySummary {
    pub name: String,
    pub kind: EntryKind,
    pub size_display: String,
}

/// A size in hundredths of a kilobyte (1024 bytes), rounded to the nearest,
/// ties to even.
pub open spec fn hundredths(bytes: nat) -> nat {
    let q = bytes * 100 / 1024;
    let r = bytes * 100 % 1024;
    if r > 512 || (r == 512 && q % 2 == 1) {
        q + 1
    } else {
        q
    }
}

/// A size shown in kilobytes with two decimals, as in `2.00KB`.
pub open spec fn size_text(bytes: nat) -> Seq<char> {
    let h = hundredths(bytes);
    decimal(h / 100) + seq!['.', digit(h % 100 / 10), digit(h % 10)] + seq!['K', 'B']
}

/// What stands for a size that could not be read.
pub open spec fn unknown_size() -> Seq<char> {
    "unknown size"@
}

/// The kind an entry is shown with: `Other` where it could not be read.
pub open spec fn kind_of(e: EntryInfo) -> EntryKind {
    match e.kind {
        Ok(k) => k,
        Err(_) => EntryKind::Other,
    }
}

pub open spec fn is_dir_entry(e: EntryInfo) -> bool {
    e.kind == Ok::<EntryKind, String>(EntryKind::Directory)
}

/// The size column of an entry.
pub open spec fn size_of(e: EntryInfo) -> Seq<char> {
    match e.size {
        Ok(n) => size_text(n as nat),
        Err(_) => unknown_size(),
    }
}

pub open spec fn kind_warning(name: Seq<char>, err: Seq<char>) -> Seq<char> {
    "cannot read the type of ["@ + name + "]: "@ + err
}

pub open spec fn size_warning(name: Seq<char>, err: Seq<char>) -> Seq<char> {
    "cannot read the size of ["@ + name + "]: "@ + err
}

/// The warnings that summarising an entry gives: one for a kind and one for
/// a size that could not be read, in that order.
pub open spec fn warnings_of(e: EntryInfo) -> Seq<(Level, Seq<char>)> {
    let k: Seq<(Level, Seq<char>)> = match e.kind {
        Ok(_) => seq![],
        Err(m) => seq![(Level::Warn, kind_warning(e.name@, m@))],
    };
    let s: Seq<(Level, Seq<char>)> = match e.size {
        Ok(_) => seq![],
        Err(m) => seq![(Level::Warn, size_warning(e.name@, m@))],
    };
    k + s
}

/// The name column of a summary: a directory's name ends in `/`.
pub open spec fn shown_name(name: Seq<char>, kind: EntryKind) -> Seq<char> {
    if kind == EntryKind::Directory {
        name.push('/')
    } else {
        name
    }
}

/// One listing line: two columns of at least twenty characters.
pub open spec fn row_text(left: Seq<char>, right: Seq<char>) -> Seq<char> {
    pad(left, 20) + seq![' '] + pad(right, 20)
}

/// The header line of a listing.
pub open spec fn header_text() -> Seq<char> {
    row_text("Name"@, "Size"@)
}

/// Renders a size in bytes in kilobytes with two decimals.
pub fn size_display(bytes: u64) -> (r: String)
    ensures
        r@ == size_text(bytes as nat),
{
    let t: u128 = bytes as u128 * 100;
    let q128: u128 = t / 1024;
    let rem: u128 = t % 1024;
    proof {
        assert(q128 < 0x1_0000_0000_0000_0000u128 / 8) by (nonlinear_arith)
            requires
                t == bytes as u128 * 100,
                q128 == t / 1024,
                bytes < 0x1_0000_0000_0000_0000u128,
        ;
    }
    let q: u64 = q128 as u64;
    let h: u64 = if rem > 512 || (rem == 512 && q % 2 == 1) {
        q + 1
    } else {
        q
    };
    assert(h == hundredths(bytes as nat));
    let mut s = String::new();
    push_decimal(&mut s, h / 100);
    push_char(&mut s, '.');
    push_char(&mut s, digit_char(h % 100 / 10));
    push_char(&mut s, digit_char(h % 10));
    push_char(&mut s, 'K');
    push_char(&mut s, 'B');
    proof {
        assert(s@ =~= size_text(bytes as nat));
    }
    s
}

fn warning(prefix: &str, name: &String, err: &String) -> (r: Notice)
    ensures
        r@ == (Level::Warn, prefix@ + name@ + "]: "@ + err@),
{
    let mut m = String::from_str(prefix);
    m.append(name.as_str());
    m.append("]: ");
    m.append(err.as_str());
    Notice::new(Level::Warn, m)
}

/// Summarises one entry. A kind that could not be read is shown as `Other`,
/// a size that could not be read as `unknown size`; each such failure gives
/// one warning naming the entry.
pub fn classify(e: &EntryInfo) -> (r: (EntrySummary, Vec<Notice>))
    ensures
        r.0.name@ == e.name@,
        r.0.kind == kind_of(*e),
        r.0.size_display@ == size_of(*e),
        r.1@.map_values(|n: Notice| n@) == warnings_of(*e),
{
    let mut warnings: Vec<Notice> = Vec::new();
    let kind = match &e.kind {
        Ok(k) => *k,
        Err(m) => {
            warnings.push(warning("cannot read the type of [", &e.name, m));
            EntryKind::Other
        },
    };
    let size_display = match &e.size {
        Ok(n) => size_display(*n),
        Err(m) => {
            warnings.push(warning("cannot read the size of [", &e.name, m));
            String::from_str("unknown size")
        },
    };
    proof {
        assert(warnings@.map_values(|n: Notice| n@) =~= warnings_of(*e));
    }
    (EntrySummary { name: e.name.clone(), kind, size_display }, warnings)
}

/// Two columns of a listing line.
fn row_of(left: &String, right: &String) -> (r: String)
    ensures
        r@ == row_text(left@, right@),
{
    let mut s = left.clone();
    pad_to(&mut s, 20);
    push_char(&mut s, ' ');
    let mut t = right.clone();
    pad_to(&mut t, 20);
    s.append(t.as_str());
    proof {
        assert(s@ =~= row_text(left@, right@));
    }
    s
}

/// The header line of a listing.
pub fn header_line() -> (r: String)
    ensures
        r@ == header_text(),
{
    row_of(&String::from_str("Name"), &String::from_str("Size"))
}

impl EntrySummary {
    /// The listing line of this entry.
    pub fn row(&self) -> (r: String)
        ensures
            r@ == row_text(shown_name(self.name@, self.kind), self.size_display@),
    {
        let mut name = self.name.clone();
        if self.kind == EntryKind::Directory {
            push_char(&mut name, '/');
        }
        row_of(&name, &self.size_display)
    }
}

/// The entries that are directories, in the order given.
pub open spec fn dirs_of(s: Seq<EntryInfo>) -> Seq<EntryInfo>
    decreases s.len(),
{
    if s.len() == 0 {
        seq![]
    } else if is_dir_entry(s.last()) {
        dirs_of(s.drop_last()).push(s.last())
    } else {
        dirs_of(s.drop_last())
    }
}

/// The entries that are not known to be directories, in the order given.
pub open spec fn others_of(s: Seq<EntryInfo>) -> Seq<EntryInfo>
    decreases s.len(),
{
    if s.len() == 0 {
        seq![]
    } else if is_dir_entry(s.last()) {
        others_of(s.drop_last())
    } else {
        others_of(s.drop_last()).push(s.last())
    }
}

/// Orders entries for a listing: directories first, then the rest, each group
/// in the order of enumeration.
pub fn list_entries(entries: Vec<EntryInfo>) -> (r: Vec<EntryInfo>)
    ensures
        r@ == dirs_of(entries@) + others_of(entries@),
{
    let mut dirs: Vec<EntryInfo> = Vec::new();
    let mut others: Vec<EntryInfo> = Vec::new();
    let ghost all = entries@;
    let mut rest = entries;
    let n = rest.len();
    let mut i: usize = 0;
    while i < n
        invariant
            n == all.len(),
            i <= n,
            rest@.len() == n - i,
            rest@ == all.subrange(i as int, n as int),
            dirs@ == dirs_of(all.subrange(0, i as int)),
            others@ == others_of(all.subrange(0, i as int)),
        decreases n - i,
    {
        let e = rest.remove(0);
        proof {
            assert(rest@ =~= all.subrange(i + 1, n as int));
        }
        proof {
            assert(all.subrange(0, i + 1).drop_last() =~= all.subrange(0, i as int));
        }
        let is_dir = match &e.kind {
            Ok(EntryKind::Directory) => true,
            _ => false,
        };
        if is_dir {
            dirs.push(e);
        } else {
            others.push(e);
        }
        i = i + 1;
    }
    proof {
        assert(all.subrange(0, n as int) =~= all);
    }
    dirs.append(&mut others);
    dirs
}

/// The entries in the order a listing shows them.
pub open spec fn listed(entries: Seq<EntryInfo>) -> Seq<EntryInfo> {
    dirs_of(entries) + others_of(entries)
}

/// The listing line of an entry.
pub open spec fn row_of_info(e: EntryInfo) -> Seq<char> {
    row_text(shown_name(e.name@, kind_of(e)), size_of(e))
}

/// The lines a listing prints: the header, then one line per entry.
pub open spec fn listing_text(entries: Seq<EntryInfo>) -> Seq<Seq<char>> {
    seq![header_text()] + listed(entries).map_values(|e: EntryInfo| row_of_info(e))
}

/// The warnings of the given entries, entry by entry.
pub open spec fn warnings_in(s: Seq<EntryInfo>) -> Seq<(Level, Seq<char>)>
    decreases s.len(),
{
    if s.len() == 0 {
        seq![]
    } else {
        warnings_in(s.drop_last()) + warnings_of(s.last())
    }
}

/// A listing ready to print: its lines and the warnings it gave.
#[derive(Debug)]
pub struct Listing {
    pub lines: Vec<String>,
    pub warnings: Vec<Notice>,
}

/// Lists entries in enumeration order: the header, the directories, then the
/// rest, with the warnings of each entry in the same order.
pub fn listing(entries: Vec<EntryInfo>) -> (r: Listing)
    ensures
        r.lines@.map_values(|l: String| l@) == listing_text(entries@),
        r.warnings@.map_values(|n: Notice| n@) == warnings_in(listed(entries@)),
{
    let ordered = list_entries(entries);
    let ghost all = ordered@;
    let mut lines: Vec<String> = Vec::new();
    lines.push(header_line());
    let mut warnings: Vec<Notice> = Vec::new();
    let mut i: usize = 0;
    while i < ordered.len()
        invariant
            all == ordered@,
            i <= all.len(),
            lines@.map_values(|l: String| l@) == seq![header_text()] + all.subrange(0, i as int).map_values(
                |e: EntryInfo| row_of_info(e),
            ),
            warnings@.map_values(|n: Notice| n@) == warnings_in(all.subrange(0, i as int)),
        decreases all.len() - i,
    {
        let (summary, mut w) = classify(&ordered[i]);
        let row = summary.row();
        let ghost old_lines = lines@;
        let ghost old_warnings = warnings@;
        lines.push(row);
        warnings.append(&mut w);
        proof {
            let pre = all.subrange(0, i as int);
            let post = all.subrange(0, i + 1);
            assert(post.drop_last() =~= pre);
            assert(post.map_values(|e: EntryInfo| row_of_info(e)) =~= pre.map_values(
                |e: EntryInfo| row_of_info(e),
            ).push(row_of_info(all[i as int])));
            assert(lines@.map_values(|l: String| l@) =~= old_lines.map_values(|l: String| l@).push(
                row@,
            ));
            assert(warnings@.map_values(|n: Notice| n@) =~= old_warnings.map_values(|n: Notice| n@)
                + warnings_of(all[i as int]));
        }
        i = i + 1;
    }
    proof {
        assert(all.subrange(0, all.len() as int) =~= all);
    }
    Listing { lines, warnings }
}

/// A listing prints one header line, then one line for each directory with
/// `/` after its name, then one line for each other entry, each group in the
/// order of enumeration.
pub proof fn lemma_listing_groups(entries: Seq<EntryInfo>)
    ensures
        dirs_of(entries).len() + others_of(entries).len() == entries.len(),
        listing_text(entries).len() == 1 + dirs_of(entries).len() + others_of(entries).len(),
        listing_text(entries)[0] == header_text(),
        forall|k: int|
            0 <= k < dirs_of(entries).len() ==> is_dir_entry(#[trigger] dirs_of(entries)[k])
                && listing_text(entries)[1 + k] == row_text(
                dirs_of(entries)[k].name@.push('/'),
                size_of(dirs_of(entries)[k]),
            ),
        forall|k: int|
            0 <= k < others_of(entries).len() ==> !is_dir_entry(#[trigger] others_of(entries)[k])
                && listing_text(entries)[1 + dirs_of(entries).len() + k] == row_text(
                others_of(entries)[k].name@,
                size_of(others_of(entries)[k]),
            ),
{
    lemma_groups_split(entries);
}

proof fn lemma_groups_split(entries: Seq<EntryInfo>)
    ensures
        dirs_of(entries).len() + others_of(entries).len() == entries.len(),
        forall|k: int| 0 <= k < dirs_of(entries).len() ==> is_dir_entry(#[trigger] dirs_of(entries)[k]),
        forall|k: int| 0 <= k < others_of(entries).len() ==> !is_dir_entry(#[trigger] others_of(entries)[k]),
    decreases entries.len(),
{
    if entries.len() > 0 {
        lemma_groups_split(entries.drop_last());
    }
}

} // verus!
