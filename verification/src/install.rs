//! The install-execution stage: building the engine session plan from the
//! accumulated context, and reacting to the engine's outcome. The engine
//! itself (session construction, the install task) runs with the host; its
//! results enter here as plain events.

use vstd::prelude::*;

use crate::context::InstallContext;
use crate::urls::{url_is_valid, url_parse_ok};
use crate::wizard::{wizard_step, EventModel, Wizard};

verus! {

/// The location string a target directory is handed to the engine as.
pub open spec fn game_location_of(path: Seq<char>) -> Seq<char> {
    "file:"@ + path
}

/// The source URI a package identifier is handed to the engine as.
pub open spec fn package_uri_of(id: Seq<char>) -> Seq<char> {
    "kmf:"@ + id
}

/// The source URIs for a whole list of package identifiers.
pub open spec fn package_uris_of(ids: Seq<Seq<char>>) -> Seq<Seq<char>> {
    ids.map_values(|id: Seq<char>| package_uri_of(id))
}

/// The target directory as an engine location string.
pub fn game_location(path: &String) -> (r: String)
    ensures
        r@ == game_location_of(path@),
{
    String::from_str("file:").concat(path.as_str())
}

/// The engine source URI of one package identifier.
pub fn package_uri(id: &String) -> (r: String)
    ensures
        r@ == package_uri_of(id@),
{
    String::from_str("kmf:").concat(id.as_str())
}

/// The engine source URIs of all selected packages, provided every one of
/// them is a well-formed URL; the position of the first ill-formed one
/// otherwise.
pub fn validated_package_uris(ids: &Vec<String>) -> (r: Result<Vec<String>, usize>)
    ensures
        (r is Ok) == (forall|i: int|
            0 <= i < ids.deep_view().len() ==> url_parse_ok(package_uri_of(ids.deep_view()[i]))),
        r matches Ok(v) ==> v.deep_view() == package_uris_of(ids.deep_view()),
        r matches Err(i) ==> i < ids.deep_view().len() && !url_parse_ok(
            package_uri_of(ids.deep_view()[i as int]),
        ),
{
    let ghost model = ids.deep_view();
    let mut uris: Vec<String> = Vec::new();
    let mut i: usize = 0;
    proof {
        assert(uris.deep_view() =~~= package_uris_of(model.subrange(0, 0)));
    }
    while i < ids.len()
        invariant
            model == ids.deep_view(),
            i <= ids.len(),
            ids@.len() == model.len(),
            uris.deep_view() == package_uris_of(model.subrange(0, i as int)),
            forall|j: int| 0 <= j < i ==> url_parse_ok(package_uri_of(model[j])),
        decreases ids.len() - i,
    {
        let uri = package_uri(&ids[i]);
        if !url_is_valid(uri.as_str()) {
            proof {
                assert(model[i as int] == ids@[i as int]@);
                assert(!url_parse_ok(package_uri_of(model[i as int])));
            }
            return Err(i);
        }
        let ghost uris_pre = uris.deep_view();
        uris.push(uri);
        proof {
            assert(model[i as int] == ids@[i as int]@);
            let target = package_uris_of(model.subrange(0, i + 1));
            assert(uris.deep_view().len() == uris_pre.len() + 1);
            assert forall|j: int| 0 <= j < uris.deep_view().len() implies uris.deep_view()[j]
                == target[j] by {
                if j < i {
                    assert(uris.deep_view()[j] == uris_pre[j]);
                    assert(target[j] == package_uri_of(model[j]));
                } else {
                    assert(uris.deep_view()[j] == package_uri_of(model[i as int]));
                }
            }
            assert(uris.deep_view() =~= target);
        }
        i = i + 1;
    }
    proof {
        assert(model.subrange(0, model.len() as int) =~= model);
    }
    Ok(uris)
}

/// Relies on `directories::ProjectDirs::from` and `cache_dir`: looks the
/// project's cache directory up from the platform's conventions and the
/// process environment. It may find none; nothing further is assumed of the
/// returned path.
#[verifier::external_body]
fn platform_cache_dir(qualifier: &str, organization: &str, application: &str) -> (r: Option<
    String,
>) {
    directories::ProjectDirs::from(qualifier, organization, application).map(
        |d| d.cache_dir().to_string_lossy().into_owned(),
    )
}

/// The process-local cache directory for the engine, derived from the fixed
/// application identity. `None` when the platform offers no home for it.
pub fn engine_cache_dir() -> (r: Option<String>) {
    platform_cache_dir("com", "zerodegress", "kmf-installer")
}

/// Everything the engine session is constructed from and asked to do: cache
/// location, default target location, and the package source URIs.
#[derive(Debug, Clone)]
pub struct InstallPlan {
    /// Cache directory handed to the session.
    pub cache_dir: String,
    /// The collected target directory as a location string.
    pub default_game: String,
    /// One engine source URI per selected package.
    pub package_uris: Vec<String>,
}

/// Assemble the engine plan from the accumulated context. The package URIs
/// must already have been validated.
pub fn build_plan(cache_dir: String, ctx: &InstallContext, package_uris: Vec<String>) -> (r:
    InstallPlan)
    ensures
        r.cache_dir == cache_dir,
        r.default_game@ == game_location_of(ctx@.game_path),
        r.package_uris == package_uris,
{
    InstallPlan { cache_dir, default_game: game_location(&ctx.game_path), package_uris }
}

/// State of one activation of the install-execution stage.
#[derive(Debug, Clone)]
pub enum InstallStatus {
    /// The engine has not reported yet.
    Pending,
    /// The install task finished successfully; terminal for this activation.
    Succeeded,
    /// Session construction or the install task failed; the message is the
    /// engine error's textual form, shown verbatim. Terminal: no retry is
    /// offered short of a full reset.
    Failed(String),
}

/// What the engine reported back, as a plain event.
#[derive(Debug)]
pub enum EngineOutcome {
    /// The session could not be constructed (this covers a missing cache
    /// directory as well as a construction error).
    SessionFailed(String),
    /// The install task ran and finished with this result.
    TaskFinished(Result<(), String>),
}

impl Wizard {
    /// React to the engine's report: success advances the wizard to the
    /// completion stage, exactly once; any failure leaves the stage index
    /// and the context untouched and surfaces the error.
    pub fn on_engine_outcome(&mut self, outcome: EngineOutcome) -> (st: InstallStatus)
        requires
            old(self).stage < usize::MAX,
        ensures
            outcome matches EngineOutcome::TaskFinished(Ok(())) ==> final(self)@ == wizard_step(
                old(self)@,
                EventModel::Advance,
            ) && st is Succeeded,
            outcome matches EngineOutcome::SessionFailed(m) ==> final(self)@ == old(self)@ && st
                == InstallStatus::Failed(m),
            outcome matches EngineOutcome::TaskFinished(Err(m)) ==> final(self)@ == old(self)@
                && st == InstallStatus::Failed(m),
    {
        match outcome {
            EngineOutcome::SessionFailed(m) => InstallStatus::Failed(m),
            EngineOutcome::TaskFinished(Ok(())) => {
                self.stage = self.stage + 1;
                InstallStatus::Succeeded
            },
            EngineOutcome::TaskFinished(Err(m)) => InstallStatus::Failed(m),
        }
    }
}

/// The error line shown in place of the stage content.
pub open spec fn error_text_of(msg: Seq<char>) -> Seq<char> {
    "出现错误:"@ + msg
}

impl InstallStatus {
    /// The text the stage renders: a waiting indicator while the engine is
    /// out, the error line on failure, nothing on success (the wizard has
    /// already advanced).
    pub fn display_text(&self) -> (r: String)
        ensures
            self is Pending ==> r@ == "正在安装中，请坐和放宽"@,
            self matches InstallStatus::Failed(m) ==> r@ == error_text_of(m@),
            self is Succeeded ==> r@.len() == 0,
    {
        match self {
            InstallStatus::Pending => String::from_str("正在安装中，请坐和放宽"),
            InstallStatus::Succeeded => String::new(),
            InstallStatus::Failed(m) => String::from_str("出现错误:").concat(m.as_str()),
        }
    }
}

} // verus!
