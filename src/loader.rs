//! The load sequence as a state machine. The host runs it: it performs each
//! action the session asks for (locate the executable, open the library, read
//! the header, call the factory) and hands back what came of it. The session
//! decides what follows, and asks for the factory only once the plugin's
//! layout fingerprint has been found equal to the host's.
use vstd::prelude::*;

use crate::api_traits::PluginInner;
use crate::error::{InputFlowError, Result};
use crate::feature::{LibraryHandle, PluginBox};
use crate::headers::{FeatureSupport, PluginHeader};
use crate::layout::{layouts_match, root_layout, root_layout_spec};

verus! {

/// The name under which a plugin exports its header.
pub const HEADER_SYMBOL: &'static str = "IF_PLUGIN_HEAD";

/// Relies on libloading::library_filename: the platform's library prefix, the
/// name, then the platform's library suffix.
#[verifier::external_body]
fn library_filename(name: &str) -> (r: String)
    ensures
        exists|prefix: Seq<char>, suffix: Seq<char>| r@ == prefix + name@ + suffix,
{
    libloading::library_filename(name).to_string_lossy().into_owned()
}

/// Where a load stands.
#[derive(Debug, Clone, Copy, PartialEq, Eq, Structural)]
pub enum LoadStage {
    Locating,
    Opening,
    ReadingHeader,
    Creating,
    Finished,
}

/// What the host reports back after an action.
pub enum LoadEvent {
    /// Whether the host executable's directory was found.
    ExeLocated(bool),
    /// Whether the library opened.
    LibraryOpened(bool),
    /// The header, if the symbol was found.
    HeaderRead(Option<PluginHeader>),
    /// The capability bits the created instance reports, if the factory succeeded.
    FactoryReturned(Option<u8>),
}

/// What the session asks the host to do next.
#[derive(Debug)]
pub enum LoadAction {
    /// Find the directory of the host executable.
    LocateExecutable,
    /// Open the library of this file name in that directory.
    OpenLibrary(String),
    /// Look up `HEADER_SYMBOL` in the library.
    ReadHeader,
    /// Call the header's factory with the plugin's arguments.
    InvokeFactory,
    /// The load is over, with the declared capabilities or an error.
    Finish(Result<FeatureSupport>),
}

/// The state of one load, as the contracts see it.
pub struct LoadView {
    pub stage: LoadStage,
    pub file_name: Seq<char>,
    pub features: FeatureSupport,
    pub outcome: Result<FeatureSupport>,
}

/// `a` is the action that state `v` asks for: the factory is asked for
/// in the creating stage and in no other.
pub open spec fn action_is(a: LoadAction, v: LoadView) -> bool {
    match v.stage {
        LoadStage::Locating => a == LoadAction::LocateExecutable,
        LoadStage::Opening => a matches LoadAction::OpenLibrary(f) && f@ == v.file_name,
        LoadStage::ReadingHeader => a == LoadAction::ReadHeader,
        LoadStage::Creating => a == LoadAction::InvokeFactory,
        LoadStage::Finished => a == LoadAction::Finish(v.outcome),
    }
}

/// The load fails with `e`.
pub open spec fn failed(v: LoadView, e: InputFlowError) -> LoadView {
    LoadView { stage: LoadStage::Finished, outcome: Err(e), ..v }
}

/// The next state after an event. An event that does not answer the
/// pending action changes nothing.
pub open spec fn next_view(v: LoadView, e: LoadEvent) -> LoadView {
    match (v.stage, e) {
        (LoadStage::Locating, LoadEvent::ExeLocated(found)) => {
            if found {
                LoadView { stage: LoadStage::Opening, ..v }
            } else {
                failed(v, InputFlowError::Path)
            }
        },
        (LoadStage::Opening, LoadEvent::LibraryOpened(opened)) => {
            if opened {
                LoadView { stage: LoadStage::ReadingHeader, ..v }
            } else {
                failed(v, InputFlowError::Loading)
            }
        },
        (LoadStage::ReadingHeader, LoadEvent::HeaderRead(header)) => {
            match header {
                None => failed(v, InputFlowError::Symbol),
                Some(h) => {
                    if h.layout@ == root_layout_spec() {
                        LoadView { stage: LoadStage::Creating, features: h.features, ..v }
                    } else {
                        failed(v, InputFlowError::Abi)
                    }
                },
            }
        },
        (LoadStage::Creating, LoadEvent::FactoryReturned(reported)) => {
            match reported {
                None => failed(v, InputFlowError::Loading),
                Some(bits) => {
                    if bits == v.features.spec_bits() {
                        LoadView { stage: LoadStage::Finished, outcome: Ok(v.features), ..v }
                    } else {
                        failed(v, InputFlowError::Abi)
                    }
                },
            }
        },
        _ => v,
    }
}

/// The state after a run of events.
pub open spec fn after(v: LoadView, events: Seq<LoadEvent>) -> LoadView
    decreases events.len(),
{
    if events.len() == 0 {
        v
    } else {
        after(next_view(v, events[0]), events.subrange(1, events.len() as int))
    }
}

/// One load of one plugin.
pub struct LoadSession {
    stage: LoadStage,
    file_name: String,
    features: FeatureSupport,
    outcome: Result<FeatureSupport>,
}

impl View for LoadSession {
    type V = LoadView;

    closed spec fn view(&self) -> LoadView {
        LoadView {
            stage: self.stage,
            file_name: self.file_name@,
            features: self.features,
            outcome: self.outcome,
        }
    }
}

impl LoadSession {
    /// Starts loading the plugin called `name`: its library's file name is the
    /// platform's spelling of that name.
    pub fn new(name: &str) -> (r: LoadSession)
        ensures
            r@.stage == LoadStage::Locating,
            exists|prefix: Seq<char>, suffix: Seq<char>| r@.file_name == prefix + name@ + suffix,
    {
        LoadSession {
            stage: LoadStage::Locating,
            file_name: library_filename(name),
            features: FeatureSupport::empty(),
            outcome: Err(InputFlowError::Loading),
        }
    }

    /// The file name of the plugin's library.
    pub fn file_name(&self) -> (r: &str)
        ensures
            r@ == self@.file_name,
    {
        self.file_name.as_str()
    }

    /// The action the session waits on.
    pub fn action(&self) -> (r: LoadAction)
        ensures
            action_is(r, self@),
    {
        match self.stage {
            LoadStage::Locating => LoadAction::LocateExecutable,
            LoadStage::Opening => LoadAction::OpenLibrary(self.file_name.clone()),
            LoadStage::ReadingHeader => LoadAction::ReadHeader,
            LoadStage::Creating => LoadAction::InvokeFactory,
            LoadStage::Finished => LoadAction::Finish(self.outcome),
        }
    }

    fn fail(&mut self, e: InputFlowError)
        ensures
            final(self)@ == failed(old(self)@, e),
    {
        self.stage = LoadStage::Finished;
        self.outcome = Err(e);
    }

    /// Takes in what came of the pending action and returns the next one.
    pub fn step(&mut self, event: LoadEvent) -> (r: LoadAction)
        ensures
            final(self)@ == next_view(old(self)@, event),
            action_is(r, final(self)@),
    {
        match (self.stage, event) {
            (LoadStage::Locating, LoadEvent::ExeLocated(found)) => {
                if found {
                    self.stage = LoadStage::Opening;
                } else {
                    self.fail(InputFlowError::Path);
                }
            },
            (LoadStage::Opening, LoadEvent::LibraryOpened(opened)) => {
                if opened {
                    self.stage = LoadStage::ReadingHeader;
                } else {
                    self.fail(InputFlowError::Loading);
                }
            },
            (LoadStage::ReadingHeader, LoadEvent::HeaderRead(header)) => {
                match header {
                    None => self.fail(InputFlowError::Symbol),
                    Some(h) => {
                        let expected = root_layout();
                        if layouts_match(&expected, &h.layout) {
                            self.stage = LoadStage::Creating;
                            self.features = h.features;
                        } else {
                            self.fail(InputFlowError::Abi);
                        }
                    },
                }
            },
            (LoadStage::Creating, LoadEvent::FactoryReturned(reported)) => {
                match reported {
                    None => self.fail(InputFlowError::Loading),
                    Some(bits) => {
                        if bits == self.features.bits() {
                            self.stage = LoadStage::Finished;
                            self.outcome = Ok(self.features);
                        } else {
                            self.fail(InputFlowError::Abi);
                        }
                    },
                }
            },
            _ => {},
        }
        self.action()
    }

    /// Binds the created root object to its library once the load has
    /// finished well, with the capabilities the header declared. A failed
    /// load gives its error; an unfinished one gives `Loading`.
    pub fn into_plugin<R: PluginInner, L>(self, root: R, library: LibraryHandle<L>) -> (r: Result<PluginBox<R, L>>)
        ensures
            self@.stage != LoadStage::Finished ==> r == Err::<PluginBox<R, L>, InputFlowError>(InputFlowError::Loading),
            self@.stage == LoadStage::Finished ==> match self@.outcome {
                Ok(features) => r matches Ok(b) && b.spec_capabilities() == features
                    && b.spec_root() == root && b.spec_library() == library.spec_library(),
                Err(e) => r == Err::<PluginBox<R, L>, InputFlowError>(e),
            },
    {
        match self.stage {
            LoadStage::Finished => match self.outcome {
                Ok(features) => Ok(PluginBox::new(root, features, library)),
                Err(e) => Err(e),
            },
            _ => Err(InputFlowError::Loading),
        }
    }
}

/// Once finished, a load stays finished, and keeps its outcome, whatever
/// else is reported.
pub proof fn lemma_finished_is_final(v: LoadView, events: Seq<LoadEvent>)
    requires
        v.stage == LoadStage::Finished,
    ensures
        after(v, events) == v,
    decreases events.len(),
{
    if events.len() > 0 {
        assert(next_view(v, events[0]) == v);
        lemma_finished_is_final(v, events.subrange(1, events.len() as int));
    }
}

/// A header whose layout fingerprint differs from the host's ends the load
/// with exactly `Abi`, and after any further events the session is still
/// finished with that error: it never reaches the stage that asks for the
/// factory.
pub proof fn lemma_layout_mismatch_never_creates(v: LoadView, h: PluginHeader, later: Seq<LoadEvent>)
    requires
        v.stage == LoadStage::ReadingHeader,
        h.layout@ != root_layout_spec(),
    ensures
        forall|k: int|
            0 <= k <= later.len() ==> {
                let w = after(v, seq![LoadEvent::HeaderRead(Some(h))] + #[trigger] later.take(k));
                &&& w.stage == LoadStage::Finished
                &&& w.outcome == Err::<FeatureSupport, InputFlowError>(InputFlowError::Abi)
            },
{
    let w = next_view(v, LoadEvent::HeaderRead(Some(h)));
    assert forall|k: int| 0 <= k <= later.len() implies {
        let x = after(v, seq![LoadEvent::HeaderRead(Some(h))] + #[trigger] later.take(k));
        &&& x.stage == LoadStage::Finished
        &&& x.outcome == Err::<FeatureSupport, InputFlowError>(InputFlowError::Abi)
    } by {
        let events = seq![LoadEvent::HeaderRead(Some(h))] + later.take(k);
        assert(events[0] == LoadEvent::HeaderRead(Some(h)));
        assert(events.subrange(1, events.len() as int) =~= later.take(k));
        lemma_finished_is_final(w, later.take(k));
    }
}

/// A load that finishes well declares exactly the capabilities of the
/// plugin's header, and the created instance reported those same bits.
pub proof fn lemma_capabilities_match_header(v: LoadView, h: PluginHeader, reported: Option<u8>)
    requires
        v.stage == LoadStage::ReadingHeader,
    ensures
        ({
            let w = next_view(v, LoadEvent::HeaderRead(Some(h)));
            let x = next_view(w, LoadEvent::FactoryReturned(reported));
            x.outcome is Ok ==> x.outcome == Ok::<FeatureSupport, InputFlowError>(h.features)
                && reported == Some(h.features.spec_bits())
        }),
{
}

} // verus!
