//! The profile store: named profiles, each name at most once, and an
//! optional default name.

use crate::error::{ConfigError, ConfigErrorView};
use crate::profile::{clone_opt, opt_view, ProfileConfig, ProfileView};
use crate::text::texts;
use vstd::prelude::*;

verus! {

/// The abstract value of a store: its profiles in order, each with its name,
/// and the default name if one is set.
pub struct ConfigView {
    pub entries: Seq<(Seq<char>, ProfileView)>,
    pub default_profile: Option<Seq<char>>,
}

impl ConfigView {
    /// The names of the profiles, in order.
    pub open spec fn names(self) -> Seq<Seq<char>> {
        Seq::new(self.entries.len(), |i: int| self.entries[i].0)
    }

    /// Every name occurs once.
    pub open spec fn wf(self) -> bool {
        forall|i: int, j: int|
            0 <= i < self.entries.len() && 0 <= j < self.entries.len() && i != j
                ==> self.entries[i].0 != self.entries[j].0
    }

    /// Whether a profile is called `name`. Names are compared exactly.
    pub open spec fn contains(self, name: Seq<char>) -> bool {
        exists|i: int| 0 <= i < self.entries.len() && self.entries[i].0 == name
    }

    /// The place of the profile called `name`, where there is one.
    pub open spec fn position(self, name: Seq<char>) -> int {
        choose|i: int| 0 <= i < self.entries.len() && self.entries[i].0 == name
    }

    /// The profile called `name`, if there is one.
    pub open spec fn lookup(self, name: Seq<char>) -> Option<ProfileView> {
        if self.contains(name) {
            Some(self.entries[self.position(name)].1)
        } else {
            None
        }
    }

    /// The store as a mapping from name to profile.
    pub open spec fn profiles(self) -> Map<Seq<char>, ProfileView> {
        Map::new(|name: Seq<char>| self.contains(name), |name: Seq<char>| self.lookup(name)->0)
    }

    /// The profile chosen for a request: the one called `requested` where a
    /// name is given, else the one called by the default name. A name that
    /// no profile has is reported; so is a request without a name where no
    /// default is set.
    pub open spec fn resolve(self, requested: Option<Seq<char>>) -> Result<
        (Seq<char>, ProfileView),
        ConfigErrorView,
    > {
        let wanted = match requested {
            Some(name) => Some(name),
            None => self.default_profile,
        };
        match wanted {
            None => Err(ConfigErrorView::NoProfileSpecified),
            Some(name) => match self.lookup(name) {
                Some(profile) => Ok((name, profile)),
                None => Err(ConfigErrorView::ProfileNotFound { name }),
            },
        }
    }

    /// Whether the entry at `j` has the name of an earlier entry.
    pub open spec fn repeats_at(self, j: int) -> bool {
        exists|i: int| 0 <= i < j && self.entries[i].0 == self.entries[j].0
    }

    /// The place of the first entry whose name an earlier entry has.
    pub open spec fn first_repeat(self) -> int {
        choose|j: int|
            0 <= j < self.entries.len() && self.repeats_at(j) && forall|k: int|
                0 <= k < j ==> !self.repeats_at(k)
    }

    /// The store that a document's entries make: the entries as they are
    /// where every name occurs once, else the report of the first name that
    /// occurs again.
    pub open spec fn checked(self) -> Result<ConfigView, ConfigErrorView> {
        if self.wf() {
            Ok(self)
        } else {
            Err(ConfigErrorView::DuplicateProfile { name: self.entries[self.first_repeat()].0 })
        }
    }

    /// What `list` tells of each profile, in order.
    pub open spec fn listing(self) -> Seq<ProfileListingView> {
        Seq::new(
            self.entries.len(),
            |i: int|
                ProfileListingView {
                    name: self.entries[i].0,
                    username: self.entries[i].1.username,
                    email: self.entries[i].1.email,
                    token_env: self.entries[i].1.token_env,
                    ssh_config: self.entries[i].1.ssh_config,
                    is_default: self.default_profile == Some(self.entries[i].0),
                },
        )
    }

    /// The list report: the header, then the lines of every profile.
    pub open spec fn report(self) -> Seq<Seq<char>> {
        seq![header_line(self.default_profile)] + body_lines(self.entries)
    }

    /// The store with one more profile at the end.
    pub open spec fn with(self, name: Seq<char>, profile: ProfileView) -> ConfigView {
        ConfigView {
            entries: self.entries.push((name, profile)),
            default_profile: self.default_profile,
        }
    }
}

/// The first line of the list report: it names the default, if one is set.
pub open spec fn header_line(default_profile: Option<Seq<char>>) -> Seq<char> {
    match default_profile {
        Some(name) => "# Available profiles (default: "@ + name + "):"@,
        None => "# Available profiles (no default):"@,
    }
}

/// The lines of the list report for one profile: its name with username and
/// email, then the token variable and the SSH fragment where it has them.
pub open spec fn entry_lines(name: Seq<char>, p: ProfileView) -> Seq<Seq<char>> {
    seq!["# - "@ + name + " ("@ + p.username + " <"@ + p.email + ">)"@] + (match p.token_env {
        Some(var) => seq!["#   Token environment: "@ + var],
        None => seq![],
    }) + (match p.ssh_config {
        Some(path) => seq!["#   SSH config: "@ + path],
        None => seq![],
    })
}

/// The lines of the list report for all the profiles, in order.
pub open spec fn body_lines(entries: Seq<(Seq<char>, ProfileView)>) -> Seq<Seq<char>>
    decreases entries.len(),
{
    if entries.len() == 0 {
        seq![]
    } else {
        body_lines(entries.drop_last()) + entry_lines(entries.last().0, entries.last().1)
    }
}

/// The abstract value of a [`ProfileListing`].
pub struct ProfileListingView {
    pub name: Seq<char>,
    pub username: Seq<char>,
    pub email: Seq<char>,
    pub token_env: Option<Seq<char>>,
    pub ssh_config: Option<Seq<char>>,
    pub is_default: bool,
}

/// What `list` tells of one profile.
#[derive(Debug, Clone, PartialEq, Eq)]
pub struct ProfileListing {
    pub name: String,
    pub username: String,
    pub email: String,
    pub token_env: Option<String>,
    pub ssh_config: Option<String>,
    /// Whether the store's default name is this profile's name.
    pub is_default: bool,
}

impl View for ProfileListing {
    type V = ProfileListingView;

    open spec fn view(&self) -> ProfileListingView {
        ProfileListingView {
            name: self.name@,
            username: self.username@,
            email: self.email@,
            token_env: opt_view(self.token_env),
            ssh_config: opt_view(self.ssh_config),
            is_default: self.is_default,
        }
    }
}

/// The abstract value of a list of listings.
pub open spec fn listings_view(listings: Seq<ProfileListing>) -> Seq<ProfileListingView> {
    Seq::new(listings.len(), |i: int| listings[i]@)
}

/// One profile of a store, with the name it is known by.
#[derive(Debug, Clone, PartialEq, Eq)]
pub struct ProfileEntry {
    pub name: String,
    pub profile: ProfileConfig,
}

impl View for ProfileEntry {
    type V = (Seq<char>, ProfileView);

    open spec fn view(&self) -> (Seq<char>, ProfileView) {
        (self.name@, self.profile@)
    }
}

/// The abstract value of a list of entries.
pub open spec fn entries_view(entries: Seq<ProfileEntry>) -> Seq<(Seq<char>, ProfileView)> {
    Seq::new(entries.len(), |i: int| entries[i]@)
}

/// A store of profiles in which no name occurs twice.
#[derive(Debug, PartialEq, Eq)]
pub struct Config {
    entries: Vec<ProfileEntry>,
    default_profile: Option<String>,
}

impl View for Config {
    type V = ConfigView;

    closed spec fn view(&self) -> ConfigView {
        ConfigView {
            entries: entries_view(self.entries@),
            default_profile: opt_view(self.default_profile),
        }
    }
}

/// The place of the first of the entries before `end` that is called `name`.
fn position_before(entries: &Vec<ProfileEntry>, end: usize, name: &String) -> (found: Option<usize>)
    requires
        end <= entries.len(),
    ensures
        match found {
            Some(i) => i < end && entries@[i as int].name@ == name@ && forall|j: int|
                0 <= j < i ==> entries@[j].name@ != name@,
            None => forall|j: int| 0 <= j < end ==> entries@[j].name@ != name@,
        },
{
    let mut i: usize = 0;
    while i < end
        invariant
            i <= end <= entries.len(),
            forall|j: int| 0 <= j < i ==> entries@[j].name@ != name@,
        decreases end - i,
    {
        if entries[i].name == *name {
            return Some(i);
        }
        i = i + 1;
    }
    None
}

impl Config {
    #[verifier::type_invariant]
    spec fn names_distinct(&self) -> bool {
        self@.wf()
    }

    /// An empty store with the given default name.
    pub fn new(default_profile: Option<String>) -> (config: Config)
        ensures
            config@.entries.len() == 0,
            config@.default_profile == opt_view(default_profile),
            config@.wf(),
    {
        let config = Config { entries: Vec::new(), default_profile };
        assert(config@.entries =~= Seq::empty());
        config
    }

    /// The place of the profile called `name`, if there is one.
    fn find(&self, name: &String) -> (found: Option<usize>)
        ensures
            self@.wf(),
            match found {
                Some(i) => i < self@.entries.len() && self@.entries[i as int].0 == name@
                    && i == self@.position(name@) && self@.contains(name@)
                    && self.entries@[i as int]@ == self@.entries[i as int],
                None => !self@.contains(name@),
            },
    {
        proof {
            use_type_invariant(self);
        }
        position_before(&self.entries, self.entries.len(), name)
    }

    /// Resolves a request to a profile and the name it was found under.
    ///
    /// A given name is looked up exactly, whatever the default is. Without a
    /// name the default name is looked up.
    pub fn get_profile(&self, name: Option<String>) -> (found: Result<
        (String, &ProfileConfig),
        ConfigError,
    >)
        ensures
            match self@.resolve(opt_view(name)) {
                Ok((n, p)) => found is Ok && found->Ok_0.0@ == n && found->Ok_0.1@ == p,
                Err(e) => found is Err && found->Err_0@ == e,
            },
    {
        let wanted = match name {
            Some(n) => n,
            None => match &self.default_profile {
                Some(d) => d.clone(),
                None => {
                    return Err(ConfigError::NoProfileSpecified);
                },
            },
        };
        match self.find(&wanted) {
            Some(i) => Ok((wanted, &self.entries[i].profile)),
            None => Err(ConfigError::ProfileNotFound { name: wanted }),
        }
    }

    /// Builds a store from the entries of a configuration document.
    ///
    /// Succeeds exactly where every name occurs once; else reports the
    /// first name that occurs again.
    pub fn from_entries(entries: Vec<ProfileEntry>, default_profile: Option<String>) -> (made:
        Result<Config, ConfigError>)
        ensures
            match (ConfigView {
                entries: entries_view(entries@),
                default_profile: opt_view(default_profile),
            }).checked() {
                Ok(c) => made is Ok && made->Ok_0@ == c,
                Err(e) => made is Err && made->Err_0@ == e,
            },
    {
        let ghost view = ConfigView {
            entries: entries_view(entries@),
            default_profile: opt_view(default_profile),
        };
        let mut j: usize = 0;
        while j < entries.len()
            invariant
                j <= entries.len(),
                view == (ConfigView {
                    entries: entries_view(entries@),
                    default_profile: opt_view(default_profile),
                }),
                forall|k: int| 0 <= k < j ==> !view.repeats_at(k),
            decreases entries.len() - j,
        {
            match position_before(&entries, j, &entries[j].name) {
                Some(i) => {
                    assert(view.entries[i as int].0 == view.entries[j as int].0);
                    assert(view.repeats_at(j as int));
                    assert(!view.wf());
                    let ghost first = view.first_repeat();
                    assert(0 <= first < view.entries.len() && view.repeats_at(first)
                        && forall|k: int| 0 <= k < first ==> !view.repeats_at(k));
                    assert(first == j);
                    return Err(ConfigError::DuplicateProfile { name: entries[j].name.clone() });
                },
                None => {
                    assert forall|i: int| 0 <= i < j implies view.entries[i].0
                        != view.entries[j as int].0 by {
                        assert(entries@[i].name@ != entries@[j as int].name@);
                    }
                },
            }
            j = j + 1;
        }
        assert(view.wf()) by {
            assert forall|a: int, b: int|
                0 <= a < view.entries.len() && 0 <= b < view.entries.len() && a != b implies
                view.entries[a].0 != view.entries[b].0 by {
                if a < b {
                    assert(!view.repeats_at(b));
                } else {
                    assert(!view.repeats_at(a));
                }
            }
        }
        Ok(Config { entries, default_profile })
    }

    /// Adds a profile under a new name.
    ///
    /// Fails where the name is taken, and then leaves the store as it was;
    /// else the profile is added at the end.
    pub fn add_profile(
        &mut self,
        name: String,
        email: String,
        username: String,
        token_env: Option<String>,
        ssh_config: Option<String>,
    ) -> (added: Result<(), ConfigError>)
        ensures
            final(self)@.wf(),
            old(self)@.contains(name@) ==> added is Err && added->Err_0@
                == (ConfigErrorView::DuplicateProfile { name: name@ }) && final(self)@ == old(
                self,
            )@,
            !old(self)@.contains(name@) ==> added is Ok && final(self)@ == old(self)@.with(
                name@,
                ProfileView {
                    email: email@,
                    username: username@,
                    token_env: opt_view(token_env),
                    ssh_config: opt_view(ssh_config),
                },
            ),
    {
        match self.find(&name) {
            Some(_) => Err(ConfigError::DuplicateProfile { name }),
            None => {
                let ghost before = self@;
                let entry = ProfileEntry {
                    name,
                    profile: ProfileConfig { email, username, token_env, ssh_config },
                };
                proof {
                    let after = before.entries.push(entry@);
                    assert(entries_view(self.entries@.push(entry)) =~= after);
                    assert forall|i: int, j: int|
                        0 <= i < after.len() && 0 <= j < after.len() && i != j implies after[i].0
                        != after[j].0 by {
                        if i < before.entries.len() && j < before.entries.len() {
                        } else if i < before.entries.len() {
                            assert(before.entries[i].0 != entry@.0);
                        } else {
                            assert(before.entries[j].0 != entry@.0);
                        }
                    }
                }
                // The list is taken out for the push and put back after it, so
                // that the store holds distinct names whenever it is whole.
                let mut entries: Vec<ProfileEntry> = Vec::new();
                assert(entries_view(entries@) =~= Seq::empty());
                core::mem::swap(&mut self.entries, &mut entries);
                entries.push(entry);
                core::mem::swap(&mut self.entries, &mut entries);
                Ok(())
            },
        }
    }

    /// Whether a profile is called `name`.
    pub fn contains(&self, name: &str) -> (present: bool)
        ensures
            present == self@.contains(name@),
    {
        self.find(&String::from_str(name)).is_some()
    }

    /// The default name, if one is set.
    pub fn default_profile(&self) -> (name: &Option<String>)
        ensures
            opt_view(*name) == self@.default_profile,
    {
        &self.default_profile
    }

    /// How many profiles the store holds.
    pub fn len(&self) -> (n: usize)
        ensures
            n == self@.entries.len(),
    {
        self.entries.len()
    }

    /// The profiles with their names, in order; every name occurs once.
    pub fn entries(&self) -> (out: Vec<ProfileEntry>)
        ensures
            entries_view(out@) == self@.entries,
            self@.wf(),
    {
        proof {
            use_type_invariant(self);
        }
        let mut out: Vec<ProfileEntry> = Vec::new();
        let mut i: usize = 0;
        while i < self.entries.len()
            invariant
                i <= self.entries.len(),
                out.len() == i,
                forall|j: int| 0 <= j < i ==> out@[j]@ == self.entries@[j]@,
            decreases self.entries.len() - i,
        {
            let e = &self.entries[i];
            out.push(ProfileEntry { name: e.name.clone(), profile: e.profile.duplicate() });
            i = i + 1;
        }
        assert(entries_view(out@) =~= self@.entries);
        out
    }

    /// The list report as lines of text, every line a shell comment.
    pub fn list_report(&self) -> (lines: Vec<String>)
        ensures
            texts(lines@) == self@.report(),
    {
        let mut lines: Vec<String> = Vec::new();
        let header = match &self.default_profile {
            Some(name) => {
                let mut line = String::from_str("# Available profiles (default: ");
                line.append(name.as_str());
                line.append("):");
                line
            },
            None => String::from_str("# Available profiles (no default):"),
        };
        lines.push(header);
        let ghost head = seq![header_line(self@.default_profile)];
        assert(texts(lines@) =~= head);
        assert(self@.entries.take(0) =~= Seq::empty());
        let mut i: usize = 0;
        while i < self.entries.len()
            invariant
                i <= self.entries.len(),
                self@.entries == entries_view(self.entries@),
                head == seq![header_line(self@.default_profile)],
                texts(lines@) == head + body_lines(self@.entries.take(i as int)),
            decreases self.entries.len() - i,
        {
            let e = &self.entries[i];
            let ghost before = texts(lines@);
            let ghost done = self@.entries.take(i as int);
            let ghost next = self@.entries.take(i + 1);
            assert(next.drop_last() =~= done);
            assert(next.last() == e@);
            let mut line = String::from_str("# - ");
            line.append(e.name.as_str());
            line.append(" (");
            line.append(e.profile.username.as_str());
            line.append(" <");
            line.append(e.profile.email.as_str());
            line.append(">)");
            lines.push(line);
            let ghost first = seq![
                "# - "@ + e@.0 + " ("@ + e@.1.username + " <"@ + e@.1.email + ">)"@,
            ];
            assert(texts(lines@) =~= before + first);
            let ghost token = match e@.1.token_env {
                Some(var) => seq!["#   Token environment: "@ + var],
                None => seq![],
            };
            if let Some(var) = &e.profile.token_env {
                let mut line = String::from_str("#   Token environment: ");
                line.append(var.as_str());
                lines.push(line);
            }
            assert(texts(lines@) =~= before + first + token);
            let ghost ssh = match e@.1.ssh_config {
                Some(path) => seq!["#   SSH config: "@ + path],
                None => seq![],
            };
            if let Some(path) = &e.profile.ssh_config {
                let mut line = String::from_str("#   SSH config: ");
                line.append(path.as_str());
                lines.push(line);
            }
            assert(texts(lines@) =~= before + first + token + ssh);
            assert(entry_lines(e@.0, e@.1) =~= first + token + ssh);
            assert(texts(lines@) =~= head + body_lines(next)) by {
                assert(body_lines(next) == body_lines(done) + entry_lines(e@.0, e@.1));
                assert(before + first + token + ssh =~= head + (body_lines(done) + (first + token
                    + ssh)));
            }
            i = i + 1;
        }
        assert(self@.entries.take(self.entries.len() as int) =~= self@.entries);
        lines
    }

    /// Enumerates the profiles: one listing per profile, in order, with its
    /// name, its settings and whether it is the default. Every name of the
    /// store is listed, and listed once.
    pub fn list(&self) -> (out: Vec<ProfileListing>)
        ensures
            listings_view(out@) == self@.listing(),
            self@.wf(),
    {
        proof {
            use_type_invariant(self);
        }
        let mut out: Vec<ProfileListing> = Vec::new();
        let mut i: usize = 0;
        while i < self.entries.len()
            invariant
                i <= self.entries.len(),
                out.len() == i,
                self@.entries == entries_view(self.entries@),
                self@.default_profile == opt_view(self.default_profile),
                forall|j: int| 0 <= j < i ==> out@[j]@ == self@.listing()[j],
            decreases self.entries.len() - i,
        {
            let e = &self.entries[i];
            let is_default = match &self.default_profile {
                Some(d) => *d == e.name,
                None => false,
            };
            out.push(
                ProfileListing {
                    name: e.name.clone(),
                    username: e.profile.username.clone(),
                    email: e.profile.email.clone(),
                    token_env: clone_opt(&e.profile.token_env),
                    ssh_config: clone_opt(&e.profile.ssh_config),
                    is_default,
                },
            );
            i = i + 1;
        }
        assert(listings_view(out@) =~= self@.listing());
        out
    }
}

/// In a store whose names are distinct, the entry at `i` is the one its
/// name is looked up to.
pub proof fn lemma_lookup_at(c: ConfigView, i: int)
    requires
        c.wf(),
        0 <= i < c.entries.len(),
    ensures
        c.contains(c.entries[i].0),
        c.position(c.entries[i].0) == i,
        c.lookup(c.entries[i].0) == Some(c.entries[i].1),
{
    let name = c.entries[i].0;
    assert(0 <= i < c.entries.len() && c.entries[i].0 == name);
    let k = c.position(name);
    assert(0 <= k < c.entries.len() && c.entries[k].0 == name);
}

/// Listing enumerates exactly the names of the store: the listed names are
/// the store's names in order, none occurs twice, and a name is listed if
/// and only if the store has a profile of that name.
pub proof fn lemma_list_enumerates_names(c: ConfigView)
    requires
        c.wf(),
    ensures
        c.listing().len() == c.entries.len(),
        c.listing().map_values(|l: ProfileListingView| l.name) == c.names(),
        c.names().no_duplicates(),
        forall|name: Seq<char>| c.names().contains(name) <==> c.contains(name),
        c.names().to_set() == c.profiles().dom(),
{
    assert(c.listing().map_values(|l: ProfileListingView| l.name) =~= c.names());
    assert forall|name: Seq<char>| c.names().contains(name) <==> c.contains(name) by {
        if c.names().contains(name) {
            let i = choose|i: int| 0 <= i < c.names().len() && c.names()[i] == name;
            assert(c.entries[i].0 == name);
        }
        if c.contains(name) {
            let i = c.position(name);
            assert(c.names()[i] == name);
        }
    }
    assert(c.names().to_set() =~= c.profiles().dom());
}

/// A name that no profile has is reported as not found, whatever the
/// default is.
pub proof fn lemma_absent_name_not_found(c: ConfigView, name: Seq<char>)
    requires
        !c.contains(name),
    ensures
        c.resolve(Some(name)) == Err::<(Seq<char>, ProfileView), ConfigErrorView>(
            ConfigErrorView::ProfileNotFound { name },
        ),
{
}

/// A request without a name resolves as a request for the default name
/// does, where the default names a profile of the store.
pub proof fn lemma_default_resolves_as_named(c: ConfigView, default: Seq<char>)
    requires
        c.default_profile == Some(default),
        c.contains(default),
    ensures
        c.resolve(None) == c.resolve(Some(default)),
        c.resolve(None) is Ok,
        c.resolve(None)->Ok_0.0 == default,
{
}

/// A profile added under a new name is kept with the values it was given:
/// the store with it is a valid document, read back whole, in which the new
/// name resolves to the new profile and every other name to what it
/// resolved to before.
pub proof fn lemma_added_profile_is_kept(c: ConfigView, name: Seq<char>, profile: ProfileView)
    requires
        c.wf(),
        !c.contains(name),
    ensures
        c.with(name, profile).wf(),
        c.with(name, profile).checked() == Ok::<ConfigView, ConfigErrorView>(
            c.with(name, profile),
        ),
        c.with(name, profile).lookup(name) == Some(profile),
        c.with(name, profile).resolve(Some(name)) == Ok::<
            (Seq<char>, ProfileView),
            ConfigErrorView,
        >((name, profile)),
        forall|other: Seq<char>|
            other != name ==> c.with(name, profile).lookup(other) == c.lookup(other),
{
    let d = c.with(name, profile);
    let n = c.entries.len() as int;
    assert(d.entries.len() == n + 1);
    assert(d.entries[n] == (name, profile));
    assert forall|i: int, j: int|
        0 <= i < d.entries.len() && 0 <= j < d.entries.len() && i != j implies d.entries[i].0
        != d.entries[j].0 by {
        if i < n && j < n {
            assert(d.entries[i] == c.entries[i] && d.entries[j] == c.entries[j]);
        } else if i < n {
            assert(d.entries[i] == c.entries[i]);
        } else {
            assert(d.entries[j] == c.entries[j]);
        }
    }
    lemma_lookup_at(d, n);
    assert forall|other: Seq<char>| other != name implies d.lookup(other) == c.lookup(
        other,
    ) by {
        if c.contains(other) {
            let i = c.position(other);
            assert(d.entries[i] == c.entries[i]);
            lemma_lookup_at(c, i);
            lemma_lookup_at(d, i);
        } else if d.contains(other) {
            let i = d.position(other);
            assert(i < n);
            assert(d.entries[i] == c.entries[i]);
        }
    }
}

} // verus!
