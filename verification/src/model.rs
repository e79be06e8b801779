//! A declarative account of the lookup: a directory as one observation, and
//! the resolution that the precedence rules assign to it. The precedence and
//! error-handling laws are stated and proved here, and the public lookup
//! promises that every result it returns reflects the resolution of some
//! observation.

use vstd::prelude::*;

use crate::error::LocateError;
use crate::manifest::{json_object_has_key, json_wf, release_key};
use crate::names::{
    candidate_name, join_seq, manifest_name, release_config_name, releaserc_name,
};

verus! {

/// What the manifest probe can observe of `{directory}/package.json`.
pub enum ManifestObservation {
    /// the manifest is absent
    Missing,
    /// the manifest exists but could not be opened
    OpenFailure,
    /// the manifest was opened but could not be read
    ReadFailure,
    /// the manifest was read and holds this text
    Content(Seq<char>),
}

/// One observation of a directory: the presence of the eight plain candidate
/// files, in precedence order, and the state of the package manifest.
pub struct DirectoryObservation {
    /// presence of candidates 0 through 7: the six `.releaserc` forms, then
    /// `release.config.js`, then `release.config.cjs`
    pub file_present: Seq<bool>,
    /// the state of `package.json`
    pub manifest: ManifestObservation,
}

impl DirectoryObservation {
    /// One presence bit for each of the eight plain candidates.
    pub open spec fn wf(&self) -> bool {
        self.file_present.len() == 8
    }
}

/// What the lookup yields on an observation.
pub enum Resolution {
    /// candidate `i` of the nine is returned; `{directory}/package.json`
    /// itself where `i` is 8
    Found(int),
    /// no probe matched
    NoMatch,
    /// the manifest exists but opening it failed
    OpenError,
    /// the manifest was opened but reading it failed
    ReadError,
    /// the manifest was read but does not parse
    ParseError,
}

/// The first index at or after `start` whose candidate is present.
pub open spec fn first_present_from(file_present: Seq<bool>, start: int) -> Option<int>
    decreases file_present.len() - start,
{
    if start < 0 || start >= file_present.len() {
        None
    } else if file_present[start] {
        Some(start)
    } else {
        first_present_from(file_present, start + 1)
    }
}

/// The resolution that the precedence rules assign to an observation: the
/// first present file candidate wins; only where none is present does the
/// manifest decide, and only a present manifest can raise an error.
pub open spec fn resolve(observation: DirectoryObservation) -> Resolution {
    match first_present_from(observation.file_present, 0) {
        Some(i) => Resolution::Found(i),
        None => match observation.manifest {
            ManifestObservation::Missing => Resolution::NoMatch,
            ManifestObservation::OpenFailure => Resolution::OpenError,
            ManifestObservation::ReadFailure => Resolution::ReadError,
            ManifestObservation::Content(text) => if !json_wf(text) {
                Resolution::ParseError
            } else if json_object_has_key(text, release_key()) {
                Resolution::Found(8)
            } else {
                Resolution::NoMatch
            },
        },
    }
}

/// How a lookup result reflects a resolution: a found candidate is returned
/// as its full path, no match is `Ok(None)`, and each failure is the matching
/// error variant carrying the manifest path.
pub open spec fn outcome_reflects(
    directory: Seq<char>,
    resolution: Resolution,
    r: Result<Option<String>, LocateError>,
) -> bool {
    match resolution {
        Resolution::Found(i) => r matches Ok(Some(path)) && path@ == join_seq(
            directory,
            candidate_name(i),
        ),
        Resolution::NoMatch => r matches Ok(None),
        Resolution::OpenError => r matches Err(e) && e is FileOpenError && e.spec_path()
            == join_seq(directory, manifest_name()),
        Resolution::ReadError => r matches Err(e) && e is FileReadError && e.spec_path()
            == join_seq(directory, manifest_name()),
        Resolution::ParseError => r matches Err(e) && e is FileParseError && e.spec_path()
            == join_seq(directory, manifest_name()),
    }
}

/// How a dotfile-probe result reflects one observation of the six
/// candidates' presence: the first present candidate's path is returned, and
/// where none is present nothing is.
pub open spec fn releaserc_probe_reflects(
    directory: Seq<char>,
    present: Seq<bool>,
    r: Option<String>,
) -> bool {
    present.len() == 6 && match first_present_from(present, 0) {
        Some(i) => r matches Some(path) && path@ == join_seq(directory, releaserc_name(i)),
        None => r is None,
    }
}

/// How a named-config-probe result reflects one observation of the two
/// candidates' presence: `release.config.js` is preferred, and where neither
/// is present nothing is returned.
pub open spec fn release_config_probe_reflects(
    directory: Seq<char>,
    present: Seq<bool>,
    r: Option<String>,
) -> bool {
    present.len() == 2 && match first_present_from(present, 0) {
        Some(i) => r matches Some(path) && path@ == join_seq(directory, release_config_name(i)),
        None => r is None,
    }
}

/// How a manifest-probe result reflects one observation of `package.json`:
/// an absent manifest is no match and never an error, each failure stage
/// yields its own error variant carrying the manifest path, and read text
/// yields its key verdict — or a parse error where it is ill-formed.
pub open spec fn manifest_probe_reflects(
    directory: Seq<char>,
    observation: ManifestObservation,
    r: Result<bool, LocateError>,
) -> bool {
    match observation {
        ManifestObservation::Missing => r matches Ok(present) && !present,
        ManifestObservation::OpenFailure => r matches Err(e) && e is FileOpenError
            && e.spec_path() == join_seq(directory, manifest_name()),
        ManifestObservation::ReadFailure => r matches Err(e) && e is FileReadError
            && e.spec_path() == join_seq(directory, manifest_name()),
        ManifestObservation::Content(text) => if json_wf(text) {
            r matches Ok(present) && present == json_object_has_key(text, release_key())
        } else {
            r matches Err(e) && e is FileParseError && e.spec_path() == join_seq(
                directory,
                manifest_name(),
            )
        },
    }
}

pub(crate) proof fn lemma_first_present_from_hit(file_present: Seq<bool>, start: int, i: int)
    requires
        0 <= start <= i < file_present.len(),
        file_present[i],
        forall|k: int| start <= k < i ==> !file_present[k],
    ensures
        first_present_from(file_present, start) == Some(i),
    decreases i - start,
{
    if start < i {
        lemma_first_present_from_hit(file_present, start + 1, i);
    }
}

pub(crate) proof fn lemma_first_present_from_none(file_present: Seq<bool>, start: int)
    requires
        0 <= start <= file_present.len(),
        forall|k: int| start <= k < file_present.len() ==> !file_present[k],
    ensures
        first_present_from(file_present, start) is None,
    decreases file_present.len() - start,
{
    if start < file_present.len() {
        lemma_first_present_from_none(file_present, start + 1);
    }
}

/// A directory holding exactly one of the eight plain candidate files
/// resolves to that file, whatever the manifest holds.
pub proof fn lemma_lone_file_candidate_is_returned(observation: DirectoryObservation, j: int)
    requires
        observation.wf(),
        0 <= j < 8,
        observation.file_present[j],
        forall|k: int| 0 <= k < 8 && k != j ==> !observation.file_present[k],
    ensures
        resolve(observation) == Resolution::Found(j),
{
    lemma_first_present_from_hit(observation.file_present, 0, j);
}

/// A directory with no plain candidate file whose manifest parses to an
/// object with a `release` member resolves to the manifest itself.
pub proof fn lemma_manifest_release_alone_is_returned(
    observation: DirectoryObservation,
    text: Seq<char>,
)
    requires
        observation.wf(),
        forall|k: int| 0 <= k < 8 ==> !observation.file_present[k],
        observation.manifest == ManifestObservation::Content(text),
        json_wf(text),
        json_object_has_key(text, release_key()),
    ensures
        resolve(observation) == Resolution::Found(8),
{
    lemma_first_present_from_none(observation.file_present, 0);
}

/// Precedence: where the bare `.releaserc` is present it wins, whatever else
/// the directory holds.
pub proof fn lemma_bare_releaserc_takes_precedence(observation: DirectoryObservation)
    requires
        observation.wf(),
        observation.file_present[0],
    ensures
        resolve(observation) == Resolution::Found(0),
{
    lemma_first_present_from_hit(observation.file_present, 0, 0);
}

/// Precedence: where a `release.config` file is present and no `.releaserc`
/// form is, the config file wins over the manifest, whatever the manifest
/// holds; `release.config.js` is preferred to `release.config.cjs`.
pub proof fn lemma_config_file_takes_precedence_over_manifest(observation: DirectoryObservation)
    requires
        observation.wf(),
        forall|k: int| 0 <= k < 6 ==> !observation.file_present[k],
        observation.file_present[6] || observation.file_present[7],
    ensures
        resolve(observation) == Resolution::Found(
            if observation.file_present[6] {
                6int
            } else {
                7int
            },
        ),
{
    if observation.file_present[6] {
        lemma_first_present_from_hit(observation.file_present, 0, 6);
    } else {
        lemma_first_present_from_hit(observation.file_present, 0, 7);
    }
}

/// Extension order is exact: where `.releaserc.yaml` is present and the bare
/// `.releaserc` is not, `.releaserc.yaml` wins — in particular over
/// `.releaserc.yml`, present or not.
pub proof fn lemma_yaml_is_checked_before_yml(observation: DirectoryObservation)
    requires
        observation.wf(),
        !observation.file_present[0],
        observation.file_present[1],
    ensures
        resolve(observation) == Resolution::Found(1),
{
    lemma_first_present_from_hit(observation.file_present, 0, 1);
}

/// A manifest lacking the `release` member, with no other candidate present,
/// is no match — not an error.
pub proof fn lemma_manifest_without_release_is_no_match(
    observation: DirectoryObservation,
    text: Seq<char>,
)
    requires
        observation.wf(),
        forall|k: int| 0 <= k < 8 ==> !observation.file_present[k],
        observation.manifest == ManifestObservation::Content(text),
        json_wf(text),
        !json_object_has_key(text, release_key()),
    ensures
        resolve(observation) == Resolution::NoMatch,
{
    lemma_first_present_from_none(observation.file_present, 0);
}

/// A manifest that does not parse is a parse error, whatever keys its text
/// may appear to contain, once no plain candidate is present to win first.
pub proof fn lemma_unparsable_manifest_is_parse_error(
    observation: DirectoryObservation,
    text: Seq<char>,
)
    requires
        observation.wf(),
        forall|k: int| 0 <= k < 8 ==> !observation.file_present[k],
        observation.manifest == ManifestObservation::Content(text),
        !json_wf(text),
    ensures
        resolve(observation) == Resolution::ParseError,
{
    lemma_first_present_from_none(observation.file_present, 0);
}

/// A directory with none of the recognized candidates is no match.
pub proof fn lemma_empty_directory_is_no_match(observation: DirectoryObservation)
    requires
        observation.wf(),
        forall|k: int| 0 <= k < 8 ==> !observation.file_present[k],
        observation.manifest == ManifestObservation::Missing,
    ensures
        resolve(observation) == Resolution::NoMatch,
{
    lemma_first_present_from_none(observation.file_present, 0);
}

/// Idempotence: the resolution is a function of the observation alone, so
/// repeated lookups of a directory that observes unchanged resolve alike.
pub proof fn lemma_resolution_is_deterministic(
    first: DirectoryObservation,
    second: DirectoryObservation,
)
    requires
        first == second,
    ensures
        resolve(first) == resolve(second),
{
}

} // verus!
