//! The release feed: what the latest published release looks like, whether
//! the running program should replace itself with it, and which of its
//! assets carries the replacement.

use crate::text::{contains, contains_text, ends_with_ignoring_case, ends_with_text_ignoring_case};
use vstd::prelude::*;

verus! {

/// The text by which an asset is known to belong to this program.
pub const PROGRAM_TOKEN: &'static str = "guilauncher";

/// The end of the name of an update package, in any case of letters.
pub const PACKAGE_SUFFIX: &'static str = ".zip";

/// One downloadable file attached to a release.
#[derive(Debug, PartialEq, Eq)]
pub struct Asset {
    pub name: String,
    pub download_url: String,
}

/// An [`Asset`] as contracts see it.
pub struct AssetView {
    pub name: Seq<char>,
    pub download_url: Seq<char>,
}

impl View for Asset {
    type V = AssetView;

    open spec fn view(&self) -> AssetView {
        AssetView { name: self.name@, download_url: self.download_url@ }
    }
}

/// The latest published release of this program.
#[derive(Debug, PartialEq, Eq)]
pub struct Release {
    pub version_name: String,
    pub assets: Vec<Asset>,
}

/// A [`Release`] as contracts see it.
pub struct ReleaseView {
    pub version_name: Seq<char>,
    pub assets: Seq<AssetView>,
}

impl View for Release {
    type V = ReleaseView;

    open spec fn view(&self) -> ReleaseView {
        ReleaseView {
            version_name: self.version_name@,
            assets: self.assets@.map_values(|a: Asset| a@),
        }
    }
}

/// The feed could not be reached or its answer could not be read: no
/// self-update in this run.
#[derive(Debug, Clone, Copy, PartialEq, Eq, Structural)]
pub struct Unavailable;

/// What the comparison with the latest release asks for.
#[derive(Debug, PartialEq, Eq)]
pub enum UpdateDecision {
    UpToDate,
    UpdateTo(Release),
}

/// An [`UpdateDecision`] as contracts see it.
pub enum UpdateDecisionView {
    UpToDate,
    UpdateTo(ReleaseView),
}

impl View for UpdateDecision {
    type V = UpdateDecisionView;

    open spec fn view(&self) -> UpdateDecisionView {
        match self {
            UpdateDecision::UpToDate => UpdateDecisionView::UpToDate,
            UpdateDecision::UpdateTo(release) => UpdateDecisionView::UpdateTo(release@),
        }
    }
}

/// What the answer of the feed comes to, with the reason where nothing is
/// downloaded.
#[derive(Debug, PartialEq, Eq)]
pub enum UpdateOutcome {
    /// The feed could not be reached or read.
    Unavailable,
    /// The latest release has the running version, and no update is forced.
    UpToDate,
    /// An update is wanted and the release holds no update package.
    NoUpdatePackage,
    /// An update is wanted: the package is at this address.
    Download(String),
}

/// An [`UpdateOutcome`] as contracts see it.
pub enum UpdateOutcomeView {
    Unavailable,
    UpToDate,
    NoUpdatePackage,
    Download(Seq<char>),
}

impl View for UpdateOutcome {
    type V = UpdateOutcomeView;

    open spec fn view(&self) -> UpdateOutcomeView {
        match self {
            UpdateOutcome::Unavailable => UpdateOutcomeView::Unavailable,
            UpdateOutcome::UpToDate => UpdateOutcomeView::UpToDate,
            UpdateOutcome::NoUpdatePackage => UpdateOutcomeView::NoUpdatePackage,
            UpdateOutcome::Download(url) => UpdateOutcomeView::Download(url@),
        }
    }
}

/// The decision for a running version and a latest release. Version names
/// are compared as plain text: any difference asks for the update, and so
/// does `force`.
pub open spec fn update_decision(
    current_version: Seq<char>,
    latest: ReleaseView,
    force: bool,
) -> UpdateDecisionView {
    if current_version == latest.version_name && !force {
        UpdateDecisionView::UpToDate
    } else {
        UpdateDecisionView::UpdateTo(latest)
    }
}

/// What the answer of the feed asks for: nothing where the feed was
/// unavailable, else the decision for the release it named.
pub open spec fn self_update_check(
    force_update: bool,
    current_version: Seq<char>,
    latest: Result<Release, Unavailable>,
) -> Option<UpdateDecisionView> {
    match latest {
        Ok(release) => Some(update_decision(current_version, release@, force_update)),
        Err(_) => None,
    }
}

/// An asset of this name is an update package: the name holds the program's
/// token and ends in the package suffix, in any case of letters.
pub open spec fn update_package_name(name: Seq<char>) -> bool {
    contains_text(name, PROGRAM_TOKEN@) && ends_with_text_ignoring_case(name, PACKAGE_SUFFIX@)
}

/// `index` is the place of the first update package among `assets`.
pub open spec fn first_update_package(assets: Seq<AssetView>, index: int) -> bool {
    &&& 0 <= index < assets.len()
    &&& update_package_name(assets[index].name)
    &&& forall|j: int| 0 <= j < index ==> !update_package_name(#[trigger] assets[j].name)
}

/// No asset among `assets` is an update package.
pub open spec fn no_update_package(assets: Seq<AssetView>) -> bool {
    forall|j: int| 0 <= j < assets.len() ==> !update_package_name(#[trigger] assets[j].name)
}

/// The place of the update package among `assets`: that of the first asset
/// that is named like one.
pub open spec fn update_asset(assets: Seq<AssetView>) -> Option<int> {
    if exists|i: int| first_update_package(assets, i) {
        Some(choose|i: int| first_update_package(assets, i))
    } else {
        None
    }
}

/// What the answer of the feed comes to: the address of the first update
/// package where an update is wanted and the release holds one, else the
/// reason why nothing is downloaded.
pub open spec fn update_outcome_of(
    force_update: bool,
    current_version: Seq<char>,
    latest: Result<Release, Unavailable>,
) -> UpdateOutcomeView {
    match self_update_check(force_update, current_version, latest) {
        None => UpdateOutcomeView::Unavailable,
        Some(UpdateDecisionView::UpToDate) => UpdateOutcomeView::UpToDate,
        Some(UpdateDecisionView::UpdateTo(release)) => match update_asset(release.assets) {
            Some(index) => UpdateOutcomeView::Download(release.assets[index].download_url),
            None => UpdateOutcomeView::NoUpdatePackage,
        },
    }
}

/// Compares the running version with the latest release. The same version
/// name without `force` is up to date; any other name, or `force`, asks for
/// the update to the latest release.
pub fn resolve_update_decision(
    current_version: &str,
    latest: Release,
    force: bool,
) -> (decision: UpdateDecision)
    ensures
        decision@ == update_decision(current_version@, latest@, force),
        current_version@ == latest@.version_name && !force ==> decision@ is UpToDate,
        current_version@ != latest@.version_name || force ==> decision@
            == UpdateDecisionView::UpdateTo(latest@),
{
    let current: String = current_version.to_owned();
    if current == latest.version_name && !force {
        UpdateDecision::UpToDate
    } else {
        UpdateDecision::UpdateTo(latest)
    }
}

/// Turns the answer of the feed into a decision. An unavailable feed is no
/// error: it gives `None`, and the run goes on without an update.
pub fn check_self_update(
    force_update: bool,
    current_version: &str,
    latest: Result<Release, Unavailable>,
) -> (decision: Option<UpdateDecision>)
    ensures
        match decision {
            Some(d) => self_update_check(force_update, current_version@, latest) == Some(d@),
            None => self_update_check(force_update, current_version@, latest) is None,
        },
{
    match latest {
        Ok(release) => Some(resolve_update_decision(current_version, release, force_update)),
        Err(_) => None,
    }
}

/// Says what the answer of the feed comes to, and why. The answer itself is
/// left as it is.
pub fn update_outcome(
    force_update: bool,
    current_version: &str,
    latest: &Result<Release, Unavailable>,
) -> (outcome: UpdateOutcome)
    ensures
        outcome@ == update_outcome_of(force_update, current_version@, *latest),
{
    match latest {
        Ok(release) => {
            let current: String = current_version.to_owned();
            if current == release.version_name && !force_update {
                UpdateOutcome::UpToDate
            } else {
                match find_update_asset(release) {
                    Some(index) => UpdateOutcome::Download(
                        release.assets[index].download_url.clone(),
                    ),
                    None => UpdateOutcome::NoUpdatePackage,
                }
            }
        },
        Err(_) => UpdateOutcome::Unavailable,
    }
}

/// Whether an asset of this name is an update package.
pub fn is_update_package(name: &str) -> (hit: bool)
    ensures
        hit == update_package_name(name@),
{
    contains(name, PROGRAM_TOKEN) && ends_with_ignoring_case(name, PACKAGE_SUFFIX)
}

/// The place of the first update package among the assets of `release`.
pub fn find_update_asset(release: &Release) -> (found: Option<usize>)
    ensures
        match found {
            Some(index) => first_update_package(release@.assets, index as int),
            None => no_update_package(release@.assets),
        },
        update_asset(release@.assets) == match found {
            Some(index) => Some(index as int),
            None => None,
        },
{
    let mut index: usize = 0;
    while index < release.assets.len()
        invariant
            index <= release.assets.len(),
            forall|j: int|
                0 <= j < index ==> !update_package_name(#[trigger] release@.assets[j].name),
        decreases release.assets.len() - index,
    {
        if is_update_package(release.assets[index].name.as_str()) {
            proof {
                lemma_first_update_package_unique(release@.assets, index as int);
            }
            return Some(index);
        }
        index += 1;
    }
    None
}

/// Only one place is that of the first update package.
pub proof fn lemma_first_update_package_unique(assets: Seq<AssetView>, index: int)
    requires
        first_update_package(assets, index),
    ensures
        update_asset(assets) == Some(index),
{
    let chosen = choose|i: int| first_update_package(assets, i);
    if chosen < index {
        assert(!update_package_name(assets[chosen].name));
    }
    if index < chosen {
        assert(!update_package_name(assets[index].name));
    }
}

} // verus!
