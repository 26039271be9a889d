//! Ingredient collection: turns the declared ingredients, once their sources
//! have been inspected, into the ordered manifest of archive entries.
use crate::config::{CargoConfig, CookConfig, CookIngredient};
use crate::text::{join_path, joined};
use vstd::prelude::*;

verus! {

/// Whether `pattern` is accepted by the regular-expression compiler.
pub uninterp spec fn regex_compiles(pattern: Seq<char>) -> bool;

/// Whether the compiled `pattern` matches somewhere in `text`.
pub uninterp spec fn regex_finds(pattern: Seq<char>, text: Seq<char>) -> bool;

#[verifier::external_type_specification]
#[verifier::external_body]
pub struct ExRegex(regex::Regex);

/// Relies on `regex::Regex::new`: whether compiling succeeds depends on the
/// pattern alone; the error is turned into its message.
#[verifier::external_body]
fn compile_regex(pattern: &str) -> (r: Result<regex::Regex, String>)
    ensures
        r is Ok <==> regex_compiles(pattern@),
{
    match regex::Regex::new(pattern) {
        Ok(re) => Ok(re),
        Err(e) => Err(e.to_string()),
    }
}

/// A compiled name filter. Its fields are private, so `regex` is always the
/// compilation of `pattern`.
struct NameFilter {
    pattern: String,
    regex: regex::Regex,
}

impl NameFilter {
    closed spec fn pattern(&self) -> Seq<char> {
        self.pattern@
    }

    fn new(pattern: &str) -> (r: Result<NameFilter, String>)
        ensures
            r is Ok <==> regex_compiles(pattern@),
            r matches Ok(f) ==> f.pattern() == pattern@,
    {
        match compile_regex(pattern) {
            Ok(regex) => Ok(NameFilter { pattern: String::from_str(pattern), regex }),
            Err(reason) => Err(reason),
        }
    }

    /// Relies on `regex::Regex::is_match`, applied to the compilation of
    /// `self.pattern`, which `new` guarantees.
    #[verifier::external_body]
    fn is_match(&self, name: &str) -> (r: bool)
        ensures
            r == regex_finds(self.pattern(), name@),
    {
        self.regex.is_match(name)
    }
}

/// One archive entry: the path inside the archive and the file it is read from.
#[derive(Clone, Debug, PartialEq, Eq)]
pub struct FileEntry {
    pub destination: String,
    pub source: String,
}

impl View for FileEntry {
    type V = (Seq<char>, Seq<char>);

    open spec fn view(&self) -> (Seq<char>, Seq<char>) {
        (self.destination@, self.source@)
    }
}

/// An immediate entry of a directory: its name and its full path.
#[derive(Clone, Debug, PartialEq, Eq)]
pub struct DirEntry {
    pub name: String,
    pub path: String,
}

/// What an ingredient's source turned out to be on disk.
#[derive(Clone, Debug, PartialEq, Eq)]
pub enum SourceKind {
    File,
    /// A directory, with its immediate entries in the order it lists them.
    Directory(Vec<DirEntry>),
    /// Neither a file nor a directory.
    Missing,
}

/// A declared ingredient together with what its source is.
#[derive(Clone, Debug, PartialEq, Eq)]
pub struct InspectedIngredient {
    pub ingredient: CookIngredient,
    pub found: SourceKind,
}

/// Why collection stopped.
#[derive(Clone, Debug, PartialEq, Eq)]
pub enum CollectError {
    /// The ingredient's source is neither a file nor a directory.
    NotFileOrDirectory(String),
    /// The ingredient's filter does not compile; the compiler's message.
    InvalidFilter { pattern: String, reason: String },
}

/// The filter of an ingredient, as a sequence.
pub open spec fn filter_of(i: CookIngredient) -> Option<Seq<char>> {
    match i.filter {
        Some(f) => Some(f@),
        None => None,
    }
}

/// Whether a directory entry named `name` is kept under `filter`.
pub open spec fn kept(filter: Option<Seq<char>>, name: Seq<char>) -> bool {
    match filter {
        Some(p) => regex_finds(p, name),
        None => true,
    }
}

/// The entry that a directory entry gives under the destination `dest`.
pub open spec fn dir_entry_view(dest: Seq<char>, e: DirEntry) -> (Seq<char>, Seq<char>) {
    (joined(dest, e.name@), e.path@)
}

/// The manifest entries of a directory listing, in listing order.
pub open spec fn listed(dest: Seq<char>, entries: Seq<DirEntry>, filter: Option<Seq<char>>) -> Seq<
    (Seq<char>, Seq<char>),
>
    decreases entries.len(),
{
    if entries.len() == 0 {
        seq![]
    } else {
        let before = listed(dest, entries.drop_last(), filter);
        if kept(filter, entries.last().name@) {
            before.push(dir_entry_view(dest, entries.last()))
        } else {
            before
        }
    }
}

/// Whether collection stops at this ingredient.
pub open spec fn fails(i: InspectedIngredient) -> bool {
    match i.found {
        SourceKind::File => false,
        SourceKind::Directory(_) => match filter_of(i.ingredient) {
            Some(p) => !regex_compiles(p),
            None => false,
        },
        SourceKind::Missing => true,
    }
}

/// Whether `e` is the error that a failing ingredient `i` gives.
pub open spec fn is_error_for(i: InspectedIngredient, e: CollectError) -> bool {
    match i.found {
        SourceKind::Missing => e matches CollectError::NotFileOrDirectory(s) && s@
            == i.ingredient.source@,
        _ => e matches CollectError::InvalidFilter { pattern, .. } && Some(pattern@) == filter_of(
            i.ingredient,
        ),
    }
}

/// The manifest entries that one ingredient gives.
pub open spec fn ingredient_entries(i: InspectedIngredient) -> Seq<(Seq<char>, Seq<char>)> {
    match i.found {
        SourceKind::File => seq![(i.ingredient.destination@, i.ingredient.source@)],
        SourceKind::Directory(entries) => listed(
            i.ingredient.destination@,
            entries@,
            filter_of(i.ingredient),
        ),
        SourceKind::Missing => seq![],
    }
}

/// The manifest entries of all ingredients, in declaration order.
pub open spec fn manifest_entries(items: Seq<InspectedIngredient>) -> Seq<(Seq<char>, Seq<char>)>
    decreases items.len(),
{
    if items.len() == 0 {
        seq![]
    } else {
        manifest_entries(items.drop_last()) + ingredient_entries(items.last())
    }
}

/// The views of a sequence of entries.
pub open spec fn entry_views(v: Seq<FileEntry>) -> Seq<(Seq<char>, Seq<char>)> {
    v.map_values(|e: FileEntry| e@)
}

/// No ingredient of `items` fails.
pub open spec fn none_fails(items: Seq<InspectedIngredient>) -> bool {
    forall|k: int| 0 <= k < items.len() ==> !fails(#[trigger] items[k])
}

/// Ingredient `k` is the first of `items` that fails.
pub open spec fn first_failure(items: Seq<InspectedIngredient>, k: int) -> bool {
    &&& 0 <= k < items.len()
    &&& fails(items[k])
    &&& forall|j: int| 0 <= j < k ==> !fails(#[trigger] items[j])
}

/// The archive entry of the build artifact: named after the rename, if one
/// is set, else after the package, and read from `target_directory/name`.
pub open spec fn artifact_view(c: CookConfig, cargo: CargoConfig) -> (Seq<char>, Seq<char>) {
    (
        match c.cook.target_rename {
            Some(r) => r@,
            None => cargo.package.name@,
        },
        joined(c.cook.target_directory@, cargo.package.name@),
    )
}

/// When no ingredient before `i` fails and `i` does, `i` is the one first failure.
proof fn lemma_first_failure_here(items: Seq<InspectedIngredient>, i: int)
    requires
        0 <= i < items.len(),
        none_fails(items.take(i)),
        fails(items[i]),
    ensures
        first_failure(items, i),
        forall|k: int| first_failure(items, k) ==> k == i,
{
    assert forall|j: int| 0 <= j < i implies !fails(#[trigger] items[j]) by {
        assert(items.take(i)[j] == items[j]);
    }
}

/// The archive entry of the build artifact.
pub fn artifact_entry(c: &CookConfig, cargo: &CargoConfig) -> (r: FileEntry)
    ensures
        r@ == artifact_view(*c, *cargo),
{
    let source = join_path(c.cook.target_directory.as_str(), cargo.package.name.as_str());
    let destination = match &c.cook.target_rename {
        Some(r) => r.clone(),
        None => cargo.package.name.clone(),
    };
    FileEntry { destination, source }
}

fn push_entry(files: &mut Vec<FileEntry>, destination: String, source: String)
    ensures
        entry_views(final(files)@) == entry_views(old(files)@).push((destination@, source@)),
{
    let ghost before = files@;
    files.push(FileEntry { destination, source });
    proof {
        assert(entry_views(files@) =~= entry_views(before).push((destination@, source@)));
    }
}

/// Appends the entries of one directory listing to `files`.
fn collect_listing(
    files: &mut Vec<FileEntry>,
    destination: &str,
    entries: &Vec<DirEntry>,
    filter: &Option<NameFilter>,
)
    ensures
        entry_views(final(files)@) == entry_views(old(files)@) + listed(
            destination@,
            entries@,
            match filter {
                Some(f) => Some(f.pattern()),
                None => None,
            },
        ),
{
    let ghost start = entry_views(files@);
    let ghost pat = match filter {
        Some(f) => Some(f.pattern()),
        None => None,
    };
    let mut j: usize = 0;
    while j < entries.len()
        invariant
            j <= entries.len(),
            pat == match filter {
                Some(f) => Some(f.pattern()),
                None => None,
            },
            entry_views(files@) == start + listed(destination@, entries@.take(j as int), pat),
        decreases entries.len() - j,
    {
        let e = &entries[j];
        let keep = match filter {
            Some(f) => f.is_match(e.name.as_str()),
            None => true,
        };
        proof {
            assert(entries@.take(j + 1).drop_last() =~= entries@.take(j as int));
            assert(entries@.take(j + 1).last() == entries@[j as int]);
        }
        if keep {
            push_entry(files, join_path(destination, e.name.as_str()), e.path.clone());
            proof {
                assert(entry_views(files@) =~= start + listed(
                    destination@,
                    entries@.take(j + 1),
                    pat,
                ));
            }
        }
        j = j + 1;
    }
    proof {
        assert(entries@.take(entries.len() as int) =~= entries@);
    }
}

/// Builds the manifest: the entries of every ingredient in declaration order,
/// then the build artifact's entry. A file gives one entry; a directory gives
/// one entry per immediate entry it lists (sub-directories are not entered),
/// restricted to the names that match its filter when it has one. Stops at the
/// first ingredient that is neither a file nor a directory, or whose filter
/// does not compile.
pub fn collect(ingredients: &[InspectedIngredient], artifact: &FileEntry) -> (r: Result<
    Vec<FileEntry>,
    CollectError,
>)
    ensures
        r is Ok <==> none_fails(ingredients@),
        r matches Ok(v) ==> entry_views(v@) == manifest_entries(ingredients@).push(artifact@),
        r matches Ok(v) ==> v@.len() > 0 && v@.last()@ == artifact@,
        forall|k: int|
            first_failure(ingredients@, k) ==> (r matches Err(e) && is_error_for(
                ingredients@[k],
                e,
            )),
{
    let mut files: Vec<FileEntry> = Vec::new();
    let mut i: usize = 0;
    while i < ingredients.len()
        invariant
            i <= ingredients.len(),
            none_fails(ingredients@.take(i as int)),
            entry_views(files@) == manifest_entries(ingredients@.take(i as int)),
        decreases ingredients.len() - i,
    {
        let item = &ingredients[i];
        let ing = &item.ingredient;
        proof {
            assert(ingredients@.take(i + 1).drop_last() =~= ingredients@.take(i as int));
            assert(ingredients@.take(i + 1).last() == ingredients@[i as int]);
        }
        match &item.found {
            SourceKind::File => {
                push_entry(&mut files, ing.destination.clone(), ing.source.clone());
            },
            SourceKind::Directory(entries) => {
                let filter = match &ing.filter {
                    Some(p) => match NameFilter::new(p.as_str()) {
                        Ok(f) => Some(f),
                        Err(reason) => {
                            proof {
                                lemma_first_failure_here(ingredients@, i as int);
                            }
                            return Err(
                                CollectError::InvalidFilter { pattern: p.clone(), reason },
                            );
                        },
                    },
                    None => None,
                };
                collect_listing(&mut files, ing.destination.as_str(), entries, &filter);
            },
            SourceKind::Missing => {
                proof {
                    lemma_first_failure_here(ingredients@, i as int);
                }
                return Err(CollectError::NotFileOrDirectory(ing.source.clone()));
            },
        }
        proof {
            assert(entry_views(files@) =~= manifest_entries(ingredients@.take(i + 1)));
            assert forall|k: int| 0 <= k < i + 1 implies !fails(
                #[trigger] ingredients@.take(i + 1)[k],
            ) by {
                if k < i {
                    assert(ingredients@.take(i + 1)[k] == ingredients@.take(i as int)[k]);
                }
            }
        }
        i = i + 1;
    }
    proof {
        assert(ingredients@.take(ingredients.len() as int) =~= ingredients@);
    }
    push_entry(&mut files, artifact.destination.clone(), artifact.source.clone());
    proof {
        let ev = entry_views(files@);
        assert(ev.len() == files@.len());
        assert(ev[ev.len() - 1] == files@[files@.len() - 1]@);
    }
    Ok(files)
}

/// `x` is the entry of some listed entry whose name `pattern` matches.
pub open spec fn from_matching_entry(
    dest: Seq<char>,
    entries: Seq<DirEntry>,
    pattern: Seq<char>,
    x: (Seq<char>, Seq<char>),
) -> bool {
    exists|j: int|
        0 <= j < entries.len() && regex_finds(pattern, entries[j].name@) && x == dir_entry_view(
            dest,
            #[trigger] entries[j],
        )
}

/// Under a filter, every entry that a directory listing gives comes from a
/// listed entry whose name the pattern matches: no other entry appears.
pub proof fn lemma_filtered_listing_matches(
    dest: Seq<char>,
    entries: Seq<DirEntry>,
    pattern: Seq<char>,
)
    ensures
        forall|k: int|
            0 <= k < listed(dest, entries, Some(pattern)).len() ==> from_matching_entry(
                dest,
                entries,
                pattern,
                #[trigger] listed(dest, entries, Some(pattern))[k],
            ),
    decreases entries.len(),
{
    if entries.len() > 0 {
        let before = entries.drop_last();
        lemma_filtered_listing_matches(dest, before, pattern);
        let all = listed(dest, entries, Some(pattern));
        let prev = listed(dest, before, Some(pattern));
        assert forall|k: int| 0 <= k < all.len() implies from_matching_entry(
            dest,
            entries,
            pattern,
            #[trigger] all[k],
        ) by {
            if k < prev.len() {
                assert(all[k] == prev[k]);
                assert(from_matching_entry(dest, before, pattern, prev[k]));
                let j = choose|j: int|
                    0 <= j < before.len() && regex_finds(pattern, before[j].name@) && prev[k]
                        == dir_entry_view(dest, #[trigger] before[j]);
                assert(before[j] == entries[j]);
            } else {
                let j = entries.len() - 1;
                assert(entries[j] == entries.last());
                assert(all == prev.push(dir_entry_view(dest, entries.last())));
            }
        }
    }
}

/// `dir/a` and `dir/b` differ when `a` and `b` differ.
pub proof fn lemma_joined_injective(dir: Seq<char>, a: Seq<char>, b: Seq<char>)
    requires
        joined(dir, a) == joined(dir, b),
    ensures
        a == b,
{
    let n = dir.len() as int + 1;
    assert(joined(dir, a).subrange(n, joined(dir, a).len() as int) =~= a);
    assert(joined(dir, b).subrange(n, joined(dir, b).len() as int) =~= b);
}

/// Without a filter, a directory listing gives one entry per listed entry,
/// in listing order, with destination `{dest}/{name}`; entries with distinct
/// names give distinct destinations, so each appears exactly once.
pub proof fn lemma_unfiltered_listing_complete(dest: Seq<char>, entries: Seq<DirEntry>)
    ensures
        listed(dest, entries, None).len() == entries.len(),
        forall|k: int|
            0 <= k < entries.len() ==> #[trigger] listed(dest, entries, None)[k] == dir_entry_view(
                dest,
                entries[k],
            ),
        (forall|a: int, b: int|
            0 <= a < b < entries.len() ==> #[trigger] entries[a].name@ != #[trigger] entries[b].name@)
            ==> (forall|a: int, b: int|
            0 <= a < b < entries.len() ==> (#[trigger] listed(dest, entries, None)[a]).0
                != (#[trigger] listed(dest, entries, None)[b]).0),
    decreases entries.len(),
{
    if entries.len() > 0 {
        let before = entries.drop_last();
        lemma_unfiltered_listing_complete(dest, before);
        let all = listed(dest, entries, None);
        assert forall|k: int| 0 <= k < entries.len() implies #[trigger] all[k] == dir_entry_view(
            dest,
            entries[k],
        ) by {
            if k < before.len() {
                assert(before[k] == entries[k]);
            }
        }
        if forall|a: int, b: int|
            0 <= a < b < entries.len() ==> #[trigger] entries[a].name@ != #[trigger] entries[b].name@ {
            assert forall|a: int, b: int| 0 <= a < b < entries.len() implies (#[trigger] all[a]).0
                != (#[trigger] all[b]).0 by {
                if all[a].0 == all[b].0 {
                    assert(all[a] == dir_entry_view(dest, entries[a]));
                    assert(all[b] == dir_entry_view(dest, entries[b]));
                    lemma_joined_injective(dest, entries[a].name@, entries[b].name@);
                }
            }
        }
    }
}

} // verus!
