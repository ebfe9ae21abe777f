//! Where grabit keeps its data (paths are `/`-separated, see `paths`): the application root, the directory of
//! hands under it, the ledger, and the layout of one hand's space.

use vstd::prelude::*;
use crate::output::{GbOutput, GbOutputKind, GbOutputT, GbSingleOutput};
use crate::paths::{file_name_spec, join_path, join_spec, lemma_file_name_of_join, plain_component};

verus! {

/// The application root, given the value of the `GRABIT_HOME` environment
/// variable (if set) and the data directory that the platform gives the
/// project ("com", "Grabit", "grabit"), if one was found: `GRABIT_HOME`
/// takes precedence; otherwise the data directory; `None` when neither is
/// there (the caller reports that the root cannot be found).
pub fn app_root(grabit_home: Option<String>, data_dir: Option<String>) -> (r: Option<String>)
    ensures
        r == (if grabit_home is Some { grabit_home } else { data_dir }),
{
    match grabit_home {
        Some(custom) => Some(custom),
        None => data_dir,
    }
}

/// The directory that holds all hands.
pub open spec fn hands_dir_spec(root: Seq<char>) -> Seq<char> {
    join_spec(root, "hands"@)
}

/// The ledger file.
pub open spec fn ledger_path_spec(root: Seq<char>) -> Seq<char> {
    join_spec(root, "ledger.json"@)
}

/// The directory that holds all hands, under the application root `root`.
pub fn hands_dir(root: &str) -> (r: String)
    ensures
        r@ == hands_dir_spec(root@),
{
    join_path(root, "hands")
}

/// The ledger file under the application root `root`.
pub fn ledger_path(root: &str) -> (r: String)
    ensures
        r@ == ledger_path_spec(root@),
{
    join_path(root, "ledger.json")
}

/// What a hand environment is: the application root and the hand's name.
pub struct HandLayout {
    pub app_root: Seq<char>,
    pub name: Seq<char>,
}

impl HandLayout {
    /// The hand's own directory.
    pub open spec fn root_dir(self) -> Seq<char> {
        join_spec(hands_dir_spec(self.app_root), self.name)
    }

    /// The directory of files copied into the hand.
    pub open spec fn pocket_dir(self) -> Seq<char> {
        join_spec(self.root_dir(), "pocket"@)
    }

    pub open spec fn config_file(self) -> Seq<char> {
        join_spec(self.root_dir(), "config.json"@)
    }

    pub open spec fn db_file(self) -> Seq<char> {
        join_spec(self.root_dir(), "index.db"@)
    }

    pub open spec fn touched_file(self) -> Seq<char> {
        join_spec(self.root_dir(), ".touched.json"@)
    }
}

/// The space of one hand, named `name`, under an application root.
#[derive(Debug, Clone)]
pub struct HandEnv {
    app_root: String,
    name: String,
}

impl View for HandEnv {
    type V = HandLayout;

    closed spec fn view(&self) -> HandLayout {
        HandLayout { app_root: self.app_root@, name: self.name@ }
    }
}

impl HandEnv {
    /// The hand named `name` under the application root `app_root`.
    pub fn new(app_root: &str, name: &str) -> (r: HandEnv)
        ensures
            r@ == (HandLayout { app_root: app_root@, name: name@ }),
    {
        HandEnv { app_root: app_root.to_owned(), name: name.to_owned() }
    }

    /// The hand's name.
    pub fn name(&self) -> (r: &str)
        ensures
            r@ == self@.name,
    {
        self.name.as_str()
    }

    pub fn root_dir(&self) -> (r: String)
        ensures
            r@ == self@.root_dir(),
    {
        let hands = hands_dir(self.app_root.as_str());
        join_path(hands.as_str(), self.name.as_str())
    }

    pub fn pocket_dir(&self) -> (r: String)
        ensures
            r@ == self@.pocket_dir(),
    {
        let root = self.root_dir();
        join_path(root.as_str(), "pocket")
    }

    pub fn config_file(&self) -> (r: String)
        ensures
            r@ == self@.config_file(),
    {
        let root = self.root_dir();
        join_path(root.as_str(), "config.json")
    }

    pub fn db_file(&self) -> (r: String)
        ensures
            r@ == self@.db_file(),
    {
        let root = self.root_dir();
        join_path(root.as_str(), "index.db")
    }

    pub fn touched_file(&self) -> (r: String)
        ensures
            r@ == self@.touched_file(),
    {
        let root = self.root_dir();
        join_path(root.as_str(), ".touched.json")
    }

    /// The directories that setting up the hand creates, in the order in
    /// which they are created: the hands directory, the hand's root, its pocket.
    pub fn init_dirs(&self) -> (r: Vec<String>)
        ensures
            r@.len() == 3,
            r@[0]@ == hands_dir_spec(self@.app_root),
            r@[1]@ == self@.root_dir(),
            r@[2]@ == self@.pocket_dir(),
    {
        let mut dirs: Vec<String> = Vec::new();
        dirs.push(hands_dir(self.app_root.as_str()));
        dirs.push(self.root_dir());
        dirs.push(self.pocket_dir());
        dirs
    }

    /// What setting up the hand reports once every directory is created.
    pub fn init_report() -> (r: GbOutput)
        ensures
            r.kind_spec() == Some(GbOutputKind::Success),
            r.message_spec() == "The hand space was successfully initialized"@,
    {
        GbOutput::Single(
            GbSingleOutput::new(GbOutputKind::Success, "The hand space was successfully initialized"),
        )
    }
}

/// `parent` followed by a `/` and at least one more character.
pub open spec fn strictly_under(child: Seq<char>, parent: Seq<char>) -> bool {
    &&& child.len() > parent.len() + 1
    &&& child.subrange(0, parent.len() as int) == parent
    &&& child[parent.len() as int] == '/'
}

/// Joining a plain component onto a path that does not end in `/` puts a
/// `/` between them.
pub proof fn lemma_join_plain(base: Seq<char>, comp: Seq<char>)
    requires
        base.len() > 0,
        base.last() != '/',
        plain_component(comp),
    ensures
        join_spec(base, comp) == base + seq!['/'] + comp,
        strictly_under(join_spec(base, comp), base),
        join_spec(base, comp).last() == comp.last(),
{
    let j = join_spec(base, comp);
    assert(j.subrange(0, base.len() as int) =~= base);
}

/// Law: for plain names, the hand's root lies right under the hands
/// directory, and its pocket, configuration, index database and touch file
/// lie right under the hand's root, each named by its fixed name.
pub proof fn lemma_hand_layout(h: HandLayout)
    requires
        plain_component(h.name),
    ensures
        strictly_under(h.root_dir(), hands_dir_spec(h.app_root)),
        file_name_spec(h.root_dir()) == Some(h.name),
        strictly_under(h.pocket_dir(), h.root_dir()),
        strictly_under(h.config_file(), h.root_dir()),
        strictly_under(h.db_file(), h.root_dir()),
        strictly_under(h.touched_file(), h.root_dir()),
        file_name_spec(h.pocket_dir()) == Some("pocket"@),
        file_name_spec(h.config_file()) == Some("config.json"@),
        file_name_spec(h.db_file()) == Some("index.db"@),
        file_name_spec(h.touched_file()) == Some(".touched.json"@),
{
    reveal_strlit("hands");
    reveal_strlit("pocket");
    reveal_strlit("config.json");
    reveal_strlit("index.db");
    reveal_strlit(".touched.json");
    let hands = hands_dir_spec(h.app_root);
    assert(plain_component("hands"@));
    assert(hands.last() == 's');
    lemma_join_plain(hands, h.name);
    let root = h.root_dir();
    assert(root.last() != '/') by {
        assert(h.name[h.name.len() - 1] != '/');
    }
    lemma_file_name_of_join(hands, h.name);
    assert(plain_component("pocket"@));
    assert(plain_component("config.json"@));
    assert(plain_component("index.db"@));
    assert(plain_component(".touched.json"@));
    lemma_join_plain(root, "pocket"@);
    lemma_join_plain(root, "config.json"@);
    lemma_join_plain(root, "index.db"@);
    lemma_join_plain(root, ".touched.json"@);
    lemma_file_name_of_join(root, "pocket"@);
    lemma_file_name_of_join(root, "config.json"@);
    lemma_file_name_of_join(root, "index.db"@);
    lemma_file_name_of_join(root, ".touched.json"@);
}

/// Law: two hands with different plain names under one application root
/// have different root directories.
pub proof fn lemma_hands_apart(a: HandLayout, b: HandLayout)
    requires
        a.app_root == b.app_root,
        plain_component(a.name),
        plain_component(b.name),
        a.name != b.name,
    ensures
        a.root_dir() != b.root_dir(),
{
    reveal_strlit("hands");
    let hands = hands_dir_spec(a.app_root);
    assert(plain_component("hands"@));
    lemma_join_plain(hands, a.name);
    lemma_join_plain(hands, b.name);
    let k: int = hands.len() as int + 1;
    if a.root_dir() == b.root_dir() {
        assert(a.root_dir().subrange(k, a.root_dir().len() as int) =~= a.name);
        assert(b.root_dir().subrange(k, b.root_dir().len() as int) =~= b.name);
    }
}

} // verus!
