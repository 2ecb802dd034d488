//! The kinds of pull requests, told by their titles, and how many of each kind
//! every contributor completed, in how many days.

use crate::error::ReportError;
use crate::models::Issue;
use crate::text::same_text;
use crate::utils::completion_days;
use crate::utils::completion_window;
use crate::utils::get_days_to_complete;
use crate::utils::is_first_unreadable;
use crate::utils::unreadable_timestamp;
use crate::utils::MAX_DAYS_TO_COMPLETE;
use regex::Regex;
use vstd::prelude::*;

verus! {

/// Whether `regex::Regex::is_match` finds a match of `pattern` in `haystack`.
pub uninterp spec fn regex_is_match(pattern: Seq<char>, haystack: Seq<char>) -> bool;

/// The kind of a pull request.
#[derive(Clone, Copy, Debug, PartialEq, Eq, Structural)]
pub enum Category {
    Fix,
    Feat,
    Refactor,
    Test,
    Build,
    Chore,
    Unlabeled,
}

impl Category {
    /// The name of the kind.
    pub open spec fn label_text(self) -> Seq<char> {
        match self {
            Category::Fix => "fix"@,
            Category::Feat => "feat"@,
            Category::Refactor => "refactor"@,
            Category::Test => "test"@,
            Category::Build => "build"@,
            Category::Chore => "chore"@,
            Category::Unlabeled => "unlabeled"@,
        }
    }

    /// The pattern that tells the kind in a title: its name and a colon, in
    /// either case, with any white space before. No pattern tells the kind
    /// `Unlabeled`.
    pub open spec fn pattern_text(self) -> Option<Seq<char>> {
        match self {
            Category::Fix => Some("(?i)\\s*fix:"@),
            Category::Feat => Some("(?i)\\s*feat:"@),
            Category::Refactor => Some("(?i)\\s*refactor:"@),
            Category::Test => Some("(?i)\\s*test:"@),
            Category::Build => Some("(?i)\\s*build:"@),
            Category::Chore => Some("(?i)\\s*chore:"@),
            Category::Unlabeled => None,
        }
    }

    /// The name of the kind.
    pub fn label(&self) -> (name: &'static str)
        ensures
            name@ == self.label_text(),
    {
        match self {
            Category::Fix => "fix",
            Category::Feat => "feat",
            Category::Refactor => "refactor",
            Category::Test => "test",
            Category::Build => "build",
            Category::Chore => "chore",
            Category::Unlabeled => "unlabeled",
        }
    }

    /// The pattern that tells the kind in a title.
    pub fn pattern(&self) -> (pattern: Option<&'static str>)
        ensures
            match pattern {
                Some(p) => self.pattern_text() == Some(p@),
                None => self.pattern_text() is None,
            },
    {
        match self {
            Category::Fix => Some("(?i)\\s*fix:"),
            Category::Feat => Some("(?i)\\s*feat:"),
            Category::Refactor => Some("(?i)\\s*refactor:"),
            Category::Test => Some("(?i)\\s*test:"),
            Category::Build => Some("(?i)\\s*build:"),
            Category::Chore => Some("(?i)\\s*chore:"),
            Category::Unlabeled => None,
        }
    }
}

/// The kinds that a title can tell, first the one that wins where several
/// patterns match.
pub open spec fn labelled_categories() -> Seq<Category> {
    seq![
        Category::Fix,
        Category::Feat,
        Category::Refactor,
        Category::Test,
        Category::Build,
        Category::Chore,
    ]
}

/// The first kind, in the order of `labelled_categories`, whose pattern matched.
pub open spec fn first_match(hits: Seq<bool>) -> Option<Category> {
    if hits[0] {
        Some(Category::Fix)
    } else if hits[1] {
        Some(Category::Feat)
    } else if hits[2] {
        Some(Category::Refactor)
    } else if hits[3] {
        Some(Category::Test)
    } else if hits[4] {
        Some(Category::Build)
    } else if hits[5] {
        Some(Category::Chore)
    } else {
        None
    }
}

/// The kind that `first_match` gives is the earliest kind of
/// `labelled_categories` whose pattern matched; it gives none where no pattern
/// matched.
pub proof fn lemma_first_match_is_earliest(hits: Seq<bool>)
    requires
        hits.len() == labelled_categories().len(),
    ensures
        match first_match(hits) {
            Some(category) => exists|i: int|
                0 <= i < hits.len() && #[trigger] labelled_categories()[i] == category && hits[i]
                    && forall|j: int| 0 <= j < i ==> !#[trigger] hits[j],
            None => forall|i: int| 0 <= i < hits.len() ==> !#[trigger] hits[i],
        },
{
    let kinds = labelled_categories();
    if hits[0] {
        assert(kinds[0] == Category::Fix);
    } else if hits[1] {
        assert(kinds[1] == Category::Feat);
    } else if hits[2] {
        assert(kinds[2] == Category::Refactor);
    } else if hits[3] {
        assert(kinds[3] == Category::Test);
    } else if hits[4] {
        assert(kinds[4] == Category::Build);
    } else if hits[5] {
        assert(kinds[5] == Category::Chore);
    }
}

/// For each kind of `labelled_categories`, whether its pattern matches somewhere
/// in `title`.
pub open spec fn title_matches(title: Seq<char>) -> Seq<bool> {
    Seq::new(6, |i: int| regex_is_match(labelled_categories()[i].pattern_text()->0, title))
}

/// The kind that `title` tells, where it tells one.
pub open spec fn title_category(title: Seq<char>) -> Option<Category> {
    first_match(title_matches(title))
}

/// `regex::Regex::new` and `Regex::is_match`: whether `pattern`, one of the
/// patterns of the kinds, matches somewhere in `haystack`.
#[verifier::external_body]
fn pattern_found(pattern: &str, haystack: &str) -> (found: bool)
    requires
        exists|i: int| 0 <= i < 6 && #[trigger] labelled_categories()[i].pattern_text() == Some(pattern@),
    ensures
        found == regex_is_match(pattern@, haystack@),
{
    Regex::new(pattern).unwrap().is_match(haystack)
}

/// The first kind whose pattern matched, `hits` holding for each kind of
/// `labelled_categories` whether its pattern did.
pub fn first_matching(hits: &[bool; 6]) -> (category: Option<Category>)
    ensures
        category == first_match(hits@),
{
    if hits[0] {
        Some(Category::Fix)
    } else if hits[1] {
        Some(Category::Feat)
    } else if hits[2] {
        Some(Category::Refactor)
    } else if hits[3] {
        Some(Category::Test)
    } else if hits[4] {
        Some(Category::Build)
    } else if hits[5] {
        Some(Category::Chore)
    } else {
        None
    }
}

/// Whether the pattern of `category` matches somewhere in `title`.
fn title_has(category: Category, title: &str) -> (found: bool)
    requires
        exists|i: int| 0 <= i < 6 && #[trigger] labelled_categories()[i] == category,
    ensures
        found == regex_is_match(category.pattern_text()->0, title@),
{
    match category.pattern() {
        Some(pattern) => pattern_found(pattern, title),
        None => false,
    }
}

/// The kind of the pull request with this title, by name; none where no pattern
/// matches.
pub fn categorize_pr(title: &String) -> (category: Option<String>)
    ensures
        match category {
            Some(name) => title_category(title@) matches Some(c) && name@ == c.label_text(),
            None => title_category(title@) is None,
        },
{
    let text = title.as_str();
    assert(labelled_categories()[0] == Category::Fix);
    assert(labelled_categories()[1] == Category::Feat);
    assert(labelled_categories()[2] == Category::Refactor);
    assert(labelled_categories()[3] == Category::Test);
    assert(labelled_categories()[4] == Category::Build);
    assert(labelled_categories()[5] == Category::Chore);
    let hits = [
        title_has(Category::Fix, text),
        title_has(Category::Feat, text),
        title_has(Category::Refactor, text),
        title_has(Category::Test, text),
        title_has(Category::Build, text),
        title_has(Category::Chore, text),
    ];
    assert(hits@ =~= title_matches(title@));
    match first_matching(&hits) {
        Some(category) => Some(String::from_str(category.label())),
        None => None,
    }
}

/// How many pull requests of one kind a contributor completed, and in how many
/// days together.
#[derive(Clone, Copy, Debug, PartialEq, Eq, Structural)]
pub struct PrDetails {
    pub count: usize,
    pub days_to_complete: i64,
}

impl PrDetails {
    /// Whether one more pull request of `days` days can be counted: the count
    /// and the days stay within what their fields hold.
    pub open spec fn has_room(self, days: int) -> bool {
        self.count < usize::MAX && i64::MIN <= self.days_to_complete + days <= i64::MAX
    }

    /// The count and the days with one more pull request, which took `days`
    /// days.
    pub open spec fn counted(self, days: int) -> PrDetails {
        PrDetails {
            count: (self.count + 1) as usize,
            days_to_complete: (self.days_to_complete + days) as i64,
        }
    }

    /// Counts one more pull request, which took `days_to_complete` days.
    pub fn update(&mut self, days_to_complete: i64)
        requires
            old(self).has_room(days_to_complete as int),
        ensures
            *final(self) == old(self).counted(days_to_complete as int),
            final(self).count == old(self).count + 1,
            final(self).days_to_complete == old(self).days_to_complete + days_to_complete,
    {
        self.days_to_complete += days_to_complete;
        self.count += 1;
    }
}

/// The kind that a name stands for: `Unlabeled` for any that is not the name of
/// another kind.
pub open spec fn category_of_key(key: Seq<char>) -> Category {
    if key == "fix"@ {
        Category::Fix
    } else if key == "feat"@ {
        Category::Feat
    } else if key == "refactor"@ {
        Category::Refactor
    } else if key == "test"@ {
        Category::Test
    } else if key == "build"@ {
        Category::Build
    } else if key == "chore"@ {
        Category::Chore
    } else {
        Category::Unlabeled
    }
}

/// The name of each kind stands for that kind.
pub proof fn lemma_label_names_category(category: Category)
    ensures
        category_of_key(category.label_text()) == category,
{
    reveal_strlit("fix");
    reveal_strlit("feat");
    reveal_strlit("refactor");
    reveal_strlit("test");
    reveal_strlit("build");
    reveal_strlit("chore");
    reveal_strlit("unlabeled");
    assert("fix"@.len() == 3 && "refactor"@.len() == 8 && "unlabeled"@.len() == 9);
    assert("feat"@.len() == 4 && "feat"@[0] == 'f');
    assert("test"@.len() == 4 && "test"@[0] == 't');
    assert("build"@.len() == 5 && "build"@[0] == 'b');
    assert("chore"@.len() == 5 && "chore"@[0] == 'c');
}

/// What one contributor completed, kind by kind.
#[derive(Clone, Copy, Debug, PartialEq, Eq, Structural)]
pub struct SummaryFields {
    pub fix: PrDetails,
    pub feat: PrDetails,
    pub refactor: PrDetails,
    pub test: PrDetails,
    pub build: PrDetails,
    pub chore: PrDetails,
    pub unlabeled: PrDetails,
}

impl SummaryFields {
    /// The count and the days of one kind.
    pub open spec fn tally(self, category: Category) -> PrDetails {
        match category {
            Category::Fix => self.fix,
            Category::Feat => self.feat,
            Category::Refactor => self.refactor,
            Category::Test => self.test,
            Category::Build => self.build,
            Category::Chore => self.chore,
            Category::Unlabeled => self.unlabeled,
        }
    }

    /// Nothing completed, of any kind.
    pub open spec fn empty() -> SummaryFields {
        let none = PrDetails { count: 0, days_to_complete: 0 };
        SummaryFields {
            fix: none,
            feat: none,
            refactor: none,
            test: none,
            build: none,
            chore: none,
            unlabeled: none,
        }
    }

    /// What was completed with one more pull request of the kind `category`,
    /// which took `days` days.
    pub open spec fn counted(self, category: Category, days: int) -> SummaryFields {
        match category {
            Category::Fix => SummaryFields { fix: self.fix.counted(days), ..self },
            Category::Feat => SummaryFields { feat: self.feat.counted(days), ..self },
            Category::Refactor => SummaryFields { refactor: self.refactor.counted(days), ..self },
            Category::Test => SummaryFields { test: self.test.counted(days), ..self },
            Category::Build => SummaryFields { build: self.build.counted(days), ..self },
            Category::Chore => SummaryFields { chore: self.chore.counted(days), ..self },
            Category::Unlabeled => SummaryFields {
                unlabeled: self.unlabeled.counted(days),
                ..self
            },
        }
    }

    /// Nothing completed yet, of any kind.
    pub fn new() -> (fields: SummaryFields)
        ensures
            fields == SummaryFields::empty(),
    {
        SummaryFields {
            fix: PrDetails { count: 0, days_to_complete: 0 },
            feat: PrDetails { count: 0, days_to_complete: 0 },
            refactor: PrDetails { count: 0, days_to_complete: 0 },
            test: PrDetails { count: 0, days_to_complete: 0 },
            build: PrDetails { count: 0, days_to_complete: 0 },
            chore: PrDetails { count: 0, days_to_complete: 0 },
            unlabeled: PrDetails { count: 0, days_to_complete: 0 },
        }
    }

    /// Counts one more pull request of the kind named `key`, which took
    /// `days_to_complete` days. A name that is not the name of a kind counts as
    /// `unlabeled`. The other kinds stay as they are.
    pub fn update(&mut self, key: &str, days_to_complete: i64)
        requires
            old(self).tally(category_of_key(key@)).has_room(days_to_complete as int),
        ensures
            *final(self) == old(self).counted(category_of_key(key@), days_to_complete as int),
    {
        if same_text(key, "fix") {
            self.fix.update(days_to_complete);
        } else if same_text(key, "feat") {
            self.feat.update(days_to_complete);
        } else if same_text(key, "refactor") {
            self.refactor.update(days_to_complete);
        } else if same_text(key, "test") {
            self.test.update(days_to_complete);
        } else if same_text(key, "build") {
            self.build.update(days_to_complete);
        } else if same_text(key, "chore") {
            self.chore.update(days_to_complete);
        } else {
            self.unlabeled.update(days_to_complete);
        }
    }
}

/// The most pull requests that one summary can count: with more, the days of
/// one kind could exceed what `days_to_complete` holds.
pub const MAX_PULL_REQUESTS: u64 = 46_116_860_184;

/// The contributor of a pull request: the login of its author, where it has one.
pub open spec fn contributor_text(issue: Issue) -> Seq<char> {
    match issue.user {
        Some(user) => user.login@,
        None => "Unknown Contributor"@,
    }
}

/// The kind of a pull request: the one that its title tells, else `Unlabeled`.
pub open spec fn issue_category(issue: Issue) -> Category {
    match title_category(issue.title@) {
        Some(category) => category,
        None => Category::Unlabeled,
    }
}

/// Whether the pull request is one of `login` and of the kind `category`.
pub open spec fn counts_for(issue: Issue, login: Seq<char>, category: Category) -> bool {
    contributor_text(issue) == login && issue_category(issue) == category
}

/// Whether one of the pull requests is one of `login`.
pub open spec fn has_contributor(prs: Seq<Issue>, login: Seq<char>) -> bool {
    exists|i: int| 0 <= i < prs.len() && contributor_text(#[trigger] prs[i]) == login
}

/// The number of the pull requests of `login` and of the kind `category`.
pub open spec fn pr_count(prs: Seq<Issue>, login: Seq<char>, category: Category) -> int
    decreases prs.len(),
{
    if prs.len() == 0 {
        0
    } else {
        pr_count(prs.drop_last(), login, category) + if counts_for(prs.last(), login, category) {
            1int
        } else {
            0int
        }
    }
}

/// The days that the pull requests of `login` and of the kind `category` took
/// together.
pub open spec fn pr_days(prs: Seq<Issue>, login: Seq<char>, category: Category) -> int
    decreases prs.len(),
{
    if prs.len() == 0 {
        0
    } else {
        pr_days(prs.drop_last(), login, category) + if counts_for(prs.last(), login, category) {
            match completion_days(prs.last()) {
                Some(days) => days,
                None => 0,
            }
        } else {
            0int
        }
    }
}

/// One contributor and what they completed.
struct ContributorEntry {
    login: String,
    tallies: SummaryFields,
}

/// Whether one of the entries is that of `login`.
spec fn has_login(entries: Seq<ContributorEntry>, login: Seq<char>) -> bool {
    exists|k: int| 0 <= k < entries.len() && (#[trigger] entries[k]).login@ == login
}

/// The place of an entry of `login`.
spec fn entry_index(entries: Seq<ContributorEntry>, login: Seq<char>) -> int {
    choose|k: int| 0 <= k < entries.len() && (#[trigger] entries[k]).login@ == login
}

/// No two entries are of the same contributor.
spec fn distinct_logins(entries: Seq<ContributorEntry>) -> bool {
    forall|j: int, k: int|
        0 <= j < k < entries.len() ==> (#[trigger] entries[j]).login@ != (#[trigger] entries[k]).login@
}

/// The counts by login that the entries hold.
spec fn entries_map(entries: Seq<ContributorEntry>) -> Map<Seq<char>, SummaryFields> {
    Map::new(
        |login: Seq<char>| has_login(entries, login),
        |login: Seq<char>| entries[entry_index(entries, login)].tallies,
    )
}

/// Among entries of distinct contributors, the entry at `k` is the one that the
/// map has for its login.
proof fn lemma_entry_at(entries: Seq<ContributorEntry>, k: int)
    requires
        distinct_logins(entries),
        0 <= k < entries.len(),
    ensures
        has_login(entries, entries[k].login@),
        entry_index(entries, entries[k].login@) == k,
        entries_map(entries).contains_key(entries[k].login@),
        entries_map(entries)[entries[k].login@] == entries[k].tallies,
{
    let j = entry_index(entries, entries[k].login@);
    assert(0 <= j < entries.len() && entries[j].login@ == entries[k].login@);
    if j < k {
        assert(entries[j].login@ != entries[k].login@);
    } else if k < j {
        assert(entries[k].login@ != entries[j].login@);
    }
}

/// What the summary has for `login`: their counts, or no counts where `login`
/// is no contributor yet.
pub open spec fn tallies_of(summary: Map<Seq<char>, SummaryFields>, login: Seq<char>) -> SummaryFields {
    if summary.contains_key(login) {
        summary[login]
    } else {
        SummaryFields::empty()
    }
}

/// The summary with one more pull request of `login` and of the kind
/// `category`, which took `days` days.
pub open spec fn with_pull_request(
    summary: Map<Seq<char>, SummaryFields>,
    login: Seq<char>,
    category: Category,
    days: int,
) -> Map<Seq<char>, SummaryFields> {
    summary.insert(login, tallies_of(summary, login).counted(category, days))
}

/// What each contributor completed, kind by kind. Its view maps the login of
/// each contributor to their counts.
pub struct ContributorSummary {
    entries: Vec<ContributorEntry>,
}

impl View for ContributorSummary {
    type V = Map<Seq<char>, SummaryFields>;

    closed spec fn view(&self) -> Map<Seq<char>, SummaryFields> {
        entries_map(self.entries@)
    }
}

/// Whether `summary` is the summary of the pull requests `prs`: it has the
/// contributors of `prs` and no others, and for each of them and each kind the
/// number of their pull requests of that kind and the days these took together.
pub open spec fn is_summary_of(summary: Map<Seq<char>, SummaryFields>, prs: Seq<Issue>) -> bool {
    &&& forall|login: Seq<char>| #[trigger]
        summary.contains_key(login) <==> has_contributor(prs, login)
    &&& forall|login: Seq<char>, category: Category|
        summary.contains_key(login) ==> {
            &&& (#[trigger] summary[login].tally(category)).count == pr_count(prs, login, category)
            &&& summary[login].tally(category).days_to_complete == pr_days(prs, login, category)
        }
}

/// The place of the entry of `login`, where there is one.
fn find_login(entries: &Vec<ContributorEntry>, login: &str) -> (place: Option<usize>)
    ensures
        match place {
            Some(k) => k < entries.len() && entries[k as int].login@ == login@,
            None => !has_login(entries@, login@),
        },
{
    let mut k: usize = 0;
    while k < entries.len()
        invariant
            k <= entries.len(),
            forall|j: int| 0 <= j < k ==> (#[trigger] entries[j]).login@ != login@,
        decreases entries.len() - k,
    {
        if same_text(entries[k].login.as_str(), login) {
            return Some(k);
        }
        k += 1;
    }
    None
}

impl ContributorSummary {
    #[verifier::type_invariant]
    pub closed spec fn one_entry_each(self) -> bool {
        distinct_logins(self.entries@)
    }

    /// The summary of no pull requests.
    pub fn new() -> (summary: ContributorSummary)
        ensures
            summary@ == Map::<Seq<char>, SummaryFields>::empty(),
    {
        let summary = ContributorSummary { entries: Vec::new() };
        assert(summary@ =~= Map::<Seq<char>, SummaryFields>::empty());
        summary
    }

    /// What `login` completed, where `login` is a contributor.
    pub fn get(&self, login: &str) -> (fields: Option<SummaryFields>)
        ensures
            match fields {
                Some(f) => self@.contains_key(login@) && self@[login@] == f,
                None => !self@.contains_key(login@),
            },
    {
        proof {
            use_type_invariant(self);
        }
        match find_login(&self.entries, login) {
            Some(k) => {
                proof {
                    lemma_entry_at(self.entries@, k as int);
                }
                Some(self.entries[k].tallies)
            },
            None => None,
        }
    }

    /// The logins of the contributors, each once, in the order in which they
    /// first came.
    pub fn contributors(&self) -> (logins: Vec<String>)
        ensures
            forall|login: Seq<char>|
                self@.contains_key(login) <==> exists|k: int|
                    0 <= k < logins.len() && (#[trigger] logins[k])@ == login,
            forall|j: int, k: int|
                0 <= j < k < logins.len() ==> (#[trigger] logins[j])@ != (#[trigger] logins[k])@,
    {
        proof {
            use_type_invariant(self);
        }
        let mut logins: Vec<String> = Vec::new();
        let mut k: usize = 0;
        while k < self.entries.len()
            invariant
                k <= self.entries.len(),
                logins.len() == k,
                forall|j: int| 0 <= j < k ==> (#[trigger] logins[j])@ == self.entries[j].login@,
            decreases self.entries.len() - k,
        {
            logins.push(self.entries[k].login.clone());
            k += 1;
        }
        assert forall|login: Seq<char>| self@.contains_key(login) implies exists|k: int|
            0 <= k < logins.len() && (#[trigger] logins[k])@ == login by {
            let k = entry_index(self.entries@, login);
            assert(logins[k]@ == login);
        }
        assert forall|login: Seq<char>|
            (exists|k: int|
                0 <= k < logins.len() && (#[trigger] logins[k])@ == login) implies self@.contains_key(
            login,
        ) by {
            let k = choose|k: int| 0 <= k < logins.len() && (#[trigger] logins[k])@ == login;
            assert(self.entries[k].login@ == login);
        }
        logins
    }

    /// The summary with one more pull request of `login` and of the kind named
    /// `key`, which took `days_to_complete` days. A contributor who is new to the
    /// summary starts without counts.
    pub fn record(self, login: String, key: &str, days_to_complete: i64) -> (next: ContributorSummary)
        requires
            tallies_of(self@, login@).tally(category_of_key(key@)).has_room(days_to_complete as int),
        ensures
            next@ == with_pull_request(
                self@,
                login@,
                category_of_key(key@),
                days_to_complete as int,
            ),
    {
        proof {
            use_type_invariant(&self);
        }
        let ghost before = self.entries@;
        let ghost category = category_of_key(key@);
        let ghost name = login@;
        let mut entries = self.entries;
        let place = find_login(&entries, login.as_str());
        let ghost updated: int;
        match place {
            Some(k) => {
                proof {
                    lemma_entry_at(before, k as int);
                    updated = k as int;
                }
                let mut fields = entries[k].tallies;
                fields.update(key, days_to_complete);
                entries.set(k, ContributorEntry { login, tallies: fields });
            },
            None => {
                proof {
                    updated = before.len() as int;
                }
                let mut fields = SummaryFields::new();
                fields.update(key, days_to_complete);
                entries.push(ContributorEntry { login, tallies: fields });
            },
        }
        proof {
            let after = entries@;
            assert(after[updated].login@ == name);
            assert(after[updated].tallies == tallies_of(entries_map(before), name).counted(
                category,
                days_to_complete as int,
            ));
            assert forall|j: int| 0 <= j < after.len() && j != updated implies 0 <= j < before.len()
                && #[trigger] after[j] == before[j] && before[j].login@ != name by {
                if place is Some {
                    assert(before[j].login@ != before[updated].login@);
                }
            }
            assert forall|j: int, k: int| 0 <= j < k < after.len() implies (#[trigger] after[j]).login@
                != (#[trigger] after[k]).login@ by {
                if j != updated && k != updated {
                    assert(before[j].login@ != before[k].login@);
                }
            }
            assert(distinct_logins(after));
            let goal = with_pull_request(
                entries_map(before),
                name,
                category,
                days_to_complete as int,
            );
            assert forall|l: Seq<char>| entries_map(after).contains_key(l) <==> goal.contains_key(
                l,
            ) by {
                if has_login(after, l) {
                    let j = entry_index(after, l);
                    if j != updated {
                        assert(before[j].login@ == l);
                    }
                }
                if has_login(before, l) {
                    let j = entry_index(before, l);
                    if place is Some && j == updated {
                        assert(after[updated].login@ == l);
                    } else {
                        assert(after[j].login@ == l);
                    }
                }
                if l == name {
                    assert(after[updated].login@ == l);
                }
            }
            assert forall|l: Seq<char>| entries_map(after).contains_key(l) implies entries_map(
                after,
            )[l] == goal[l] by {
                let j = entry_index(after, l);
                lemma_entry_at(after, j);
                if j != updated {
                    lemma_entry_at(before, j);
                }
            }
            assert(entries_map(after) =~= goal);
        }
        ContributorSummary { entries }
    }
}

/// A contributor without pull requests has none of any kind, and no days.
pub proof fn lemma_absent_contributor(prs: Seq<Issue>, login: Seq<char>, category: Category)
    requires
        !has_contributor(prs, login),
    ensures
        pr_count(prs, login, category) == 0,
        pr_days(prs, login, category) == 0,
    decreases prs.len(),
{
    if prs.len() > 0 {
        let rest = prs.drop_last();
        assert(contributor_text(prs[prs.len() - 1]) != login);
        assert forall|i: int| 0 <= i < rest.len() implies contributor_text(#[trigger] rest[i])
            != login by {
            assert(rest[i] == prs[i]);
        }
        lemma_absent_contributor(rest, login, category);
    }
}

/// One more pull request adds one to the count of its contributor and kind,
/// and its days to their days. It adds nothing to any other count, and no
/// contributor but its own.
pub proof fn lemma_one_more_pull_request(
    prs: Seq<Issue>,
    pr: Issue,
    login: Seq<char>,
    category: Category,
)
    ensures
        pr_count(prs.push(pr), login, category) == pr_count(prs, login, category) + if counts_for(
            pr,
            login,
            category,
        ) {
            1int
        } else {
            0int
        },
        pr_days(prs.push(pr), login, category) == pr_days(prs, login, category) + if counts_for(
            pr,
            login,
            category,
        ) {
            match completion_days(pr) {
                Some(days) => days,
                None => 0,
            }
        } else {
            0int
        },
        has_contributor(prs.push(pr), login) <==> has_contributor(prs, login) || contributor_text(
            pr,
        ) == login,
{
    let after = prs.push(pr);
    assert(after.drop_last() =~= prs);
    assert(after.last() == pr);
    if has_contributor(prs, login) {
        let j = choose|j: int| 0 <= j < prs.len() && contributor_text(#[trigger] prs[j]) == login;
        assert(after[j] == prs[j]);
    }
    if contributor_text(pr) == login {
        assert(after[prs.len() as int] == pr);
    }
    if has_contributor(after, login) {
        let j = choose|j: int| 0 <= j < after.len() && contributor_text(#[trigger] after[j]) == login;
        if j < prs.len() {
            assert(prs[j] == after[j]);
        }
    }
}

/// A pull request whose title tells no kind counts as `Unlabeled`, and as
/// nothing else.
pub proof fn lemma_unmatched_is_unlabeled(pr: Issue, login: Seq<char>, category: Category)
    requires
        title_category(pr.title@) is None,
    ensures
        counts_for(pr, login, category) <==> contributor_text(pr) == login && category
            == Category::Unlabeled,
{
}

/// Whether every pull request took fewer than `MAX_DAYS_TO_COMPLETE` days, in
/// either direction.
pub open spec fn days_within_limit(prs: Seq<Issue>) -> bool {
    forall|i: int|
        0 <= i < prs.len() ==> (completion_days(#[trigger] prs[i]) matches Some(days)
            && -MAX_DAYS_TO_COMPLETE < days < MAX_DAYS_TO_COMPLETE)
}

/// No count exceeds the number of pull requests, and no sum of days that
/// number of times the most days of one.
pub proof fn lemma_counts_within_limit(prs: Seq<Issue>, login: Seq<char>, category: Category)
    requires
        days_within_limit(prs),
    ensures
        0 <= pr_count(prs, login, category) <= prs.len(),
        -prs.len() * MAX_DAYS_TO_COMPLETE <= pr_days(prs, login, category) <= prs.len()
            * MAX_DAYS_TO_COMPLETE,
    decreases prs.len(),
{
    if prs.len() > 0 {
        let rest = prs.drop_last();
        assert forall|i: int| 0 <= i < rest.len() implies (completion_days(#[trigger] rest[i])
            matches Some(days) && -MAX_DAYS_TO_COMPLETE < days < MAX_DAYS_TO_COMPLETE) by {
            assert(rest[i] == prs[i]);
        }
        lemma_counts_within_limit(rest, login, category);
        assert(completion_days(prs[prs.len() - 1]) is Some);
    }
}

/// The summary of some pull requests, with one more pull request, is the
/// summary of those and that one.
pub proof fn lemma_summary_grows(summary: Map<Seq<char>, SummaryFields>, prs: Seq<Issue>, pr: Issue)
    requires
        is_summary_of(summary, prs),
        completion_days(pr) is Some,
        tallies_of(summary, contributor_text(pr)).tally(issue_category(pr)).has_room(
            completion_days(pr)->0,
        ),
    ensures
        is_summary_of(
            with_pull_request(
                summary,
                contributor_text(pr),
                issue_category(pr),
                completion_days(pr)->0,
            ),
            prs.push(pr),
        ),
{
    let login = contributor_text(pr);
    let category = issue_category(pr);
    let days = completion_days(pr)->0;
    let next = with_pull_request(summary, login, category, days);
    assert forall|l: Seq<char>| #[trigger] next.contains_key(l) <==> has_contributor(
        prs.push(pr),
        l,
    ) by {
        lemma_one_more_pull_request(prs, pr, l, category);
    }
    assert forall|l: Seq<char>, c: Category| next.contains_key(l) implies ({
        &&& (#[trigger] next[l].tally(c)).count == pr_count(prs.push(pr), l, c)
        &&& next[l].tally(c).days_to_complete == pr_days(prs.push(pr), l, c)
    }) by {
        lemma_one_more_pull_request(prs, pr, l, c);
        if l == login {
            if summary.contains_key(l) {
                assert(summary[l].tally(c).count == pr_count(prs, l, c));
            } else {
                lemma_absent_contributor(prs, l, c);
            }
        } else {
            assert(summary.contains_key(l));
            assert(summary[l].tally(c).count == pr_count(prs, l, c));
        }
    }
}

/// What each contributor completed: for each kind, the number of their pull
/// requests of that kind and the days these took together. A pull request
/// without an author counts for `Unknown Contributor`, one whose title tells no
/// kind counts as `unlabeled`. The first pull request with a time that is no
/// timestamp fails the summary. There may be `MAX_PULL_REQUESTS` pull requests
/// at most, so that the days of each kind can be summed.
pub fn get_prs_summary(prs: &Vec<Issue>) -> (summary: Result<ContributorSummary, ReportError>)
    requires
        prs.len() <= MAX_PULL_REQUESTS,
    ensures
        match summary {
            Ok(s) => is_summary_of(s@, prs@) && forall|i: int|
                0 <= i < prs.len() ==> completion_window(#[trigger] prs[i]) is Some,
            Err(e) => exists|i: int|
                is_first_unreadable(prs@, i) && (e matches ReportError::TimestampParseError { text }
                    && #[trigger] unreadable_timestamp(prs[i]) == Some(text@)),
        },
{
    let mut user_prs = ContributorSummary::new();
    let mut i: usize = 0;
    assert(prs@.take(0) =~= Seq::<Issue>::empty());
    while i < prs.len()
        invariant
            i <= prs.len() <= MAX_PULL_REQUESTS,
            is_summary_of(user_prs@, prs@.take(i as int)),
            days_within_limit(prs@.take(i as int)),
        decreases prs.len() - i,
    {
        let pr = &prs[i];
        let pr_type = match categorize_pr(&pr.title) {
            Some(name) => name,
            None => String::from_str("unlabeled"),
        };
        let user_login = match &pr.user {
            Some(user) => user.login.clone(),
            None => String::from_str("Unknown Contributor"),
        };
        let duration = match get_days_to_complete(pr) {
            Ok(days) => days,
            Err(e) => {
                assert forall|j: int| 0 <= j < i implies completion_window(#[trigger] prs@[j])
                    is Some by {
                    assert(prs@.take(i as int)[j] == prs@[j]);
                }
                assert(is_first_unreadable(prs@, i as int));
                return Err(e);
            },
        };
        proof {
            let seen = prs@.take(i as int);
            lemma_label_names_category(issue_category(*pr));
            lemma_counts_within_limit(seen, contributor_text(*pr), issue_category(*pr));
            if !user_prs@.contains_key(contributor_text(*pr)) {
                lemma_absent_contributor(seen, contributor_text(*pr), issue_category(*pr));
            }
            lemma_summary_grows(user_prs@, seen, *pr);
            assert(prs@.take(i + 1) =~= seen.push(*pr));
            assert forall|j: int| 0 <= j < i + 1 implies (completion_days(
                #[trigger] prs@.take(i + 1)[j],
            ) matches Some(days) && -MAX_DAYS_TO_COMPLETE < days < MAX_DAYS_TO_COMPLETE) by {
                if j < i {
                    assert(seen[j] == prs@.take(i + 1)[j]);
                }
            }
        }
        user_prs = user_prs.record(user_login, pr_type.as_str(), duration);
        i += 1;
    }
    assert(prs@.take(i as int) =~= prs@);
    assert forall|j: int| 0 <= j < prs.len() implies completion_window(#[trigger] prs[j]) is Some by {
        assert(completion_days(prs@[j]) is Some);
    }
    Ok(user_prs)
}

} // verus!
