//! Locate a project's semantic-release configuration.
//!
//! The configuration may be given as a `.releaserc` dotfile (with an optional
//! `.yaml`/`.yml`/`.json`/`.js`/`.cjs` extension), as a
//! `release.config.js`/`release.config.cjs` file, or as a `release` key in the
//! project's `package.json` manifest. The lookup probes for these artifacts in
//! that fixed order and returns the first match.

use vstd::prelude::*;

mod disk;
mod error;
mod foreign;
mod manifest;
mod model;
mod names;

pub use error::LocateError;
pub use manifest::manifest_text_declares_release;
pub use names::join_path;

use crate::model::{
    lemma_first_present_from_hit, lemma_first_present_from_none, manifest_probe_reflects,
    outcome_reflects, release_config_probe_reflects, releaserc_probe_reflects, resolve,
    DirectoryObservation, ManifestObservation,
};
use crate::names::{
    candidate_name, join_seq, manifest_name, release_config_filenames, release_config_name,
    releaserc_filenames, releaserc_name,
};

verus! {

/// Dotfile probe: the first existing path among the six `.releaserc`
/// candidates, checked in precedence order. Existence only: nothing is read,
/// a directory counts, and a failed check reads as absence.
pub fn find_releaserc_file(directory: &str) -> (r: Option<String>)
    ensures
        r matches Some(path) ==> exists|i: int|
            0 <= i < 6 && path@ == join_seq(directory@, releaserc_name(i)),
        exists|present: Seq<bool>| releaserc_probe_reflects(directory@, present, r),
{
    let filenames = releaserc_filenames();
    let mut k: usize = 0;
    while k < filenames.len()
        invariant
            filenames@.len() == 6,
            forall|i: int| 0 <= i < 6 ==> (#[trigger] filenames@[i])@ == releaserc_name(i),
            k <= 6,
        decreases 6 - k,
    {
        let path = join_path(directory, filenames[k]);
        if disk::path_exists(path.as_str()) {
            proof {
                assert(path@ == join_seq(directory@, releaserc_name(k as int)));
                let present = Seq::new(6, |j: int| j == k);
                lemma_first_present_from_hit(present, 0, k as int);
                assert(releaserc_probe_reflects(directory@, present, Some(path)));
            }
            return Some(path);
        }
        k = k + 1;
    }
    proof {
        let present = Seq::new(6, |j: int| false);
        lemma_first_present_from_none(present, 0);
        assert(releaserc_probe_reflects(directory@, present, None::<String>));
    }
    None
}

/// Named-config probe: the first existing path among `release.config.js` and
/// `release.config.cjs`, in that order. Same existence-only semantics as the
/// dotfile probe.
pub fn find_release_config_file(directory: &str) -> (r: Option<String>)
    ensures
        r matches Some(path) ==> exists|i: int|
            0 <= i < 2 && path@ == join_seq(directory@, release_config_name(i)),
        exists|present: Seq<bool>| release_config_probe_reflects(directory@, present, r),
{
    let filenames = release_config_filenames();
    let mut k: usize = 0;
    while k < filenames.len()
        invariant
            filenames@.len() == 2,
            forall|i: int| 0 <= i < 2 ==> (#[trigger] filenames@[i])@ == release_config_name(i),
            k <= 2,
        decreases 2 - k,
    {
        let path = join_path(directory, filenames[k]);
        if disk::path_exists(path.as_str()) {
            proof {
                assert(path@ == join_seq(directory@, release_config_name(k as int)));
                let present = Seq::new(2, |j: int| j == k);
                lemma_first_present_from_hit(present, 0, k as int);
                assert(release_config_probe_reflects(directory@, present, Some(path)));
            }
            return Some(path);
        }
        k = k + 1;
    }
    proof {
        let present = Seq::new(2, |j: int| false);
        lemma_first_present_from_none(present, 0);
        assert(release_config_probe_reflects(directory@, present, None::<String>));
    }
    None
}

/// Manifest probe: whether `{directory}/package.json` declares a release
/// configuration. An absent manifest is `Ok(false)`, never an error; once the
/// manifest is confirmed to exist, a failure to open, read or parse it is a
/// hard error carrying the manifest path and the underlying cause.
pub(crate) fn does_package_manifest_have_release_property(directory: &str) -> (r: Result<
    bool,
    LocateError,
>)
    ensures
        r matches Err(e) ==> e.spec_path() == join_seq(directory@, manifest_name()),
        exists|observation: ManifestObservation|
            manifest_probe_reflects(directory@, observation, r),
{
    let manifest_path = join_path(directory, "package.json");
    if !disk::path_exists(manifest_path.as_str()) {
        proof {
            assert(manifest_probe_reflects(
                directory@,
                ManifestObservation::Missing,
                Ok::<bool, LocateError>(false),
            ));
        }
        return Ok(false);
    }
    let mut file = match disk::open_file(manifest_path.as_str()) {
        Ok(file) => file,
        Err(cause) => {
            let error = LocateError::file_open_error(cause, manifest_path.as_str());
            proof {
                assert(manifest_probe_reflects(
                    directory@,
                    ManifestObservation::OpenFailure,
                    Err::<bool, LocateError>(error),
                ));
            }
            return Err(error);
        },
    };
    let text = match disk::read_file_to_string(&mut file) {
        Ok(text) => text,
        Err(cause) => {
            let error = LocateError::file_read_error(cause, manifest_path.as_str());
            proof {
                assert(manifest_probe_reflects(
                    directory@,
                    ManifestObservation::ReadFailure,
                    Err::<bool, LocateError>(error),
                ));
            }
            return Err(error);
        },
    };
    match manifest_text_declares_release(text.as_str()) {
        Ok(present) => {
            proof {
                assert(manifest_probe_reflects(
                    directory@,
                    ManifestObservation::Content(text@),
                    Ok::<bool, LocateError>(present),
                ));
            }
            Ok(present)
        },
        Err(cause) => {
            let error = LocateError::file_parse_error(cause, manifest_path.as_str());
            proof {
                assert(manifest_probe_reflects(
                    directory@,
                    ManifestObservation::Content(text@),
                    Err::<bool, LocateError>(error),
                ));
            }
            Err(error)
        },
    }
}

/// Locate a project's semantic-release configuration.
///
/// The three probes run in fixed precedence order: the `.releaserc` dotfile
/// candidates, then `release.config.js`/`release.config.cjs`, then a
/// `release` key in `package.json`. The first match wins and ends the lookup;
/// a manifest match returns the path of `package.json` itself. An error of
/// the manifest probe is propagated unchanged; `Ok(None)` means no probe
/// matched.
pub fn find_semantic_release_configuration(project_root: &str) -> (r: Result<
    Option<String>,
    LocateError,
>)
    ensures
        r matches Ok(Some(path)) ==> exists|i: int|
            0 <= i < 9 && path@ == join_seq(project_root@, candidate_name(i)),
        r matches Err(e) ==> e.spec_path() == join_seq(project_root@, manifest_name()),
        exists|observation: DirectoryObservation|
            observation.wf() && outcome_reflects(project_root@, resolve(observation), r),
{
    if let Some(config) = find_releaserc_file(project_root) {
        proof {
            let i = choose|i: int| 0 <= i < 6 && config@ == join_seq(
                project_root@,
                releaserc_name(i),
            );
            assert(config@ == join_seq(project_root@, candidate_name(i)));
            let observation = DirectoryObservation {
                file_present: Seq::new(8, |k: int| k == i),
                manifest: ManifestObservation::Missing,
            };
            lemma_first_present_from_hit(observation.file_present, 0, i);
            assert(observation.wf() && outcome_reflects(
                project_root@,
                resolve(observation),
                Ok(Some(config)),
            ));
        }
        return Ok(Some(config));
    }
    if let Some(config) = find_release_config_file(project_root) {
        proof {
            let i = choose|i: int| 0 <= i < 2 && config@ == join_seq(
                project_root@,
                release_config_name(i),
            );
            assert(config@ == join_seq(project_root@, candidate_name(i + 6)));
            let observation = DirectoryObservation {
                file_present: Seq::new(8, |k: int| k == i + 6),
                manifest: ManifestObservation::Missing,
            };
            lemma_first_present_from_hit(observation.file_present, 0, i + 6);
            assert(observation.wf() && outcome_reflects(
                project_root@,
                resolve(observation),
                Ok(Some(config)),
            ));
        }
        return Ok(Some(config));
    }
    let manifest_probe = does_package_manifest_have_release_property(project_root);
    let ghost probe_outcome = manifest_probe;
    let ghost manifest = choose|observation: ManifestObservation|
        manifest_probe_reflects(project_root@, observation, probe_outcome);
    let ghost observation = DirectoryObservation {
        file_present: Seq::new(8, |k: int| false),
        manifest,
    };
    proof {
        lemma_first_present_from_none(observation.file_present, 0);
    }
    match manifest_probe {
        Ok(true) => {
            let config = join_path(project_root, "package.json");
            proof {
                assert(config@ == join_seq(project_root@, candidate_name(8)));
                assert(observation.wf() && outcome_reflects(
                    project_root@,
                    resolve(observation),
                    Ok(Some(config)),
                ));
            }
            Ok(Some(config))
        },
        Ok(false) => {
            proof {
                assert(observation.wf() && outcome_reflects(
                    project_root@,
                    resolve(observation),
                    Ok(None),
                ));
            }
            Ok(None)
        },
        Err(error) => {
            proof {
                assert(observation.wf() && outcome_reflects(
                    project_root@,
                    resolve(observation),
                    Err(error),
                ));
            }
            Err(error)
        },
    }
}

} // verus!
