//! The supervisor's descriptor store, as a worker instance sees it.
//!
//! The store lists its entries in a fixed order, and a lookup takes the first
//! entry that bears the name. A worker registers a descriptor only after a
//! listing that held no entry of that name, so it never adds a second entry
//! under a name that it found in use.
use vstd::prelude::*;

verus! {

/// Logical name under which the region's descriptor is kept.
pub const STORE_NAME: &'static str = "memfd";

/// One entry of the store: a descriptor and the name it was registered under.
#[derive(Clone, Debug, PartialEq, Eq)]
pub struct StoreEntry {
    pub fd: i32,
    pub name: String,
}

/// A store entry as a mathematical value.
pub struct EntryView {
    pub fd: i32,
    pub name: Seq<char>,
}

impl View for StoreEntry {
    type V = EntryView;

    open spec fn view(&self) -> EntryView {
        EntryView { fd: self.fd, name: self.name@ }
    }
}

impl DeepView for StoreEntry {
    type V = EntryView;

    open spec fn deep_view(&self) -> EntryView {
        self@
    }
}

/// The descriptor of the first entry that bears `name`, if there is one.
pub open spec fn first_named(entries: Seq<EntryView>, name: Seq<char>) -> Option<i32>
    decreases entries.len(),
{
    if entries.len() == 0 {
        None
    } else if entries[0].name == name {
        Some(entries[0].fd)
    } else {
        first_named(entries.drop_first(), name)
    }
}

/// An entry that bears the name, with none before it that does, decides the
/// lookup.
pub proof fn lemma_first_named_found(entries: Seq<EntryView>, name: Seq<char>, at: int)
    requires
        0 <= at < entries.len(),
        entries[at].name == name,
        forall|j: int| 0 <= j < at ==> entries[j].name != name,
    ensures
        first_named(entries, name) == Some(entries[at].fd),
    decreases entries.len(),
{
    if at > 0 {
        lemma_first_named_found(entries.drop_first(), name, at - 1);
    }
}

/// The lookup finds nothing exactly when no entry bears the name.
pub proof fn lemma_first_named_absent(entries: Seq<EntryView>, name: Seq<char>)
    ensures
        first_named(entries, name) is None <==> forall|j: int|
            0 <= j < entries.len() ==> entries[j].name != name,
    decreases entries.len(),
{
    if entries.len() > 0 {
        lemma_first_named_absent(entries.drop_first(), name);
        if entries[0].name != name {
            assert forall|j: int| 0 <= j < entries.len() && first_named(entries, name) is None
                implies entries[j].name != name by {
                if j > 0 {
                    assert(entries.drop_first()[j - 1] == entries[j]);
                }
            }
            if forall|j: int| 0 <= j < entries.len() ==> entries[j].name != name {
                assert forall|j: int| 0 <= j < entries.drop_first().len() implies
                    entries.drop_first()[j].name != name by {
                    assert(entries.drop_first()[j] == entries[j + 1]);
                }
            }
        }
    }
}

/// Looks up the descriptor that an earlier instance registered under `name`:
/// a linear scan in which the first match wins. `None` is no error: it is
/// what the first launch finds.
pub fn retrieve(entries: &Vec<StoreEntry>, name: &str) -> (found: Option<i32>)
    ensures
        found == first_named(entries.deep_view(), name@),
{
    let wanted: String = name.to_owned();
    let mut i: usize = 0;
    while i < entries.len()
        invariant
            i <= entries.len(),
            wanted@ == name@,
            forall|j: int| 0 <= j < i ==> entries.deep_view()[j].name != name@,
        decreases entries.len() - i,
    {
        if entries[i].name == wanted {
            proof {
                lemma_first_named_found(entries.deep_view(), name@, i as int);
            }
            return Some(entries[i].fd);
        }
        i += 1;
    }
    proof {
        lemma_first_named_absent(entries.deep_view(), name@);
    }
    None
}

/// One directive of a notification to the supervisor.
#[derive(Clone, Debug, PartialEq, Eq)]
pub enum Directive {
    /// Keep the descriptors that come with the notification in the store.
    KeepInStore,
    /// The name under which those descriptors are kept.
    Name(String),
    /// The worker has finished starting up.
    Ready,
    /// A status line for the operator.
    Status(String),
}

/// A directive as a mathematical value.
pub enum DirectiveView {
    KeepInStore,
    Name(Seq<char>),
    Ready,
    Status(Seq<char>),
}

impl View for Directive {
    type V = DirectiveView;

    open spec fn view(&self) -> DirectiveView {
        match self {
            Directive::KeepInStore => DirectiveView::KeepInStore,
            Directive::Name(name) => DirectiveView::Name(name@),
            Directive::Ready => DirectiveView::Ready,
            Directive::Status(text) => DirectiveView::Status(text@),
        }
    }
}

impl DeepView for Directive {
    type V = DirectiveView;

    open spec fn deep_view(&self) -> DirectiveView {
        self@
    }
}

/// The directives that register descriptors under `name`.
pub open spec fn registration_view(name: Seq<char>) -> Seq<DirectiveView> {
    seq![DirectiveView::KeepInStore, DirectiveView::Name(name)]
}

/// The directives that report readiness with a status line.
pub open spec fn readiness_view(status: Seq<char>) -> Seq<DirectiveView> {
    seq![DirectiveView::Ready, DirectiveView::Status(status)]
}

/// Builds the directives that register descriptors under `name`.
pub fn registration(name: &str) -> (directives: Vec<Directive>)
    ensures
        directives.deep_view() == registration_view(name@),
{
    let mut directives: Vec<Directive> = Vec::new();
    directives.push(Directive::KeepInStore);
    directives.push(Directive::Name(name.to_owned()));
    assert(directives.deep_view() =~= registration_view(name@));
    directives
}

/// Builds the directives that report readiness with a status line.
pub fn readiness(status: &str) -> (directives: Vec<Directive>)
    ensures
        directives.deep_view() == readiness_view(status@),
{
    let mut directives: Vec<Directive> = Vec::new();
    directives.push(Directive::Ready);
    directives.push(Directive::Status(status.to_owned()));
    assert(directives.deep_view() =~= readiness_view(status@));
    directives
}

} // verus!
