use crate::link_arg::{args_view, LinkArg, LinkArgView};
use crate::matcher::Platform;
use crate::nmake::{get_linking_from_nmake, nmake_args};
use crate::unix::{link_txt_args, parse_link_txt};
use crate::windows::{events_deps, get_linking_from_vsproj, xml_events};
use vstd::prelude::*;

verus! {

/// Why no link arguments could be recovered.
#[derive(Clone, Copy, PartialEq, Eq, Structural, Debug)]
pub enum LinkError {
    /// The linker transcript could not be read.
    MissingLinkTxt,
    /// The project file is not well-formed XML.
    MalformedProject,
    /// Neither the project file nor the makefile fragment gave a result.
    NoProjectOrMakefile,
}

impl LinkError {
    /// A description of the failure, naming the artifacts involved.
    pub fn message(&self) -> (r: &'static str)
        ensures
            r == match self {
                LinkError::MissingLinkTxt => "Could not read the link.txt transcript",
                LinkError::MalformedProject => "Error parsing vsproj xml",
                LinkError::NoProjectOrMakefile => "Could not open either vsproj or nmake build",
            },
    {
        match self {
            LinkError::MissingLinkTxt => "Could not read the link.txt transcript",
            LinkError::MalformedProject => "Error parsing vsproj xml",
            LinkError::NoProjectOrMakefile => "Could not open either vsproj or nmake build",
        }
    }
}

/// The contents of the files that a finished native build left behind;
/// `None` for a file that could not be read.
pub struct BuildArtifacts {
    /// `CMakeFiles/<target>.dir/link.txt`
    pub link_txt: Option<String>,
    /// `<target>.vcxproj`
    pub vsproj: Option<String>,
    /// `CMakeFiles/<target>-shared.dir/build.make`
    pub build_make: Option<String>,
}

pub open spec fn opt_text(o: Option<String>) -> Option<Seq<char>> {
    match o {
        Some(s) => Some(s@),
        None => None,
    }
}

/// The outcome of the project-file backend: an error for a malformed file,
/// `Ok(None)` where the file is absent or lists nothing for the
/// configuration.
pub open spec fn vsproj_outcome(vsproj: Option<Seq<char>>, config: Seq<char>) -> Result<Option<Seq<LinkArgView>>, LinkError> {
    match vsproj {
        None => Ok(None),
        Some(x) => match xml_events(x) {
            None => Err(LinkError::MalformedProject),
            Some(ev) => Ok(events_deps(ev, config)),
        },
    }
}

/// The outcome of the makefile backend: `None` where the file is absent or
/// has no dynamic-library section.
pub open spec fn nmake_outcome(build_make: Option<Seq<char>>) -> Option<Seq<LinkArgView>> {
    match build_make {
        None => None,
        Some(t) => nmake_args(t),
    }
}

/// The link arguments of a build on the given platform: the transcript on
/// Unix; on Windows the project file, then the makefile fragment.
pub open spec fn selected_args(
    platform: Platform,
    link_txt: Option<Seq<char>>,
    vsproj: Option<Seq<char>>,
    build_make: Option<Seq<char>>,
    config: Seq<char>,
) -> Result<Seq<LinkArgView>, LinkError> {
    match platform {
        Platform::Unix => match link_txt {
            None => Err(LinkError::MissingLinkTxt),
            Some(t) => Ok(link_txt_args(t)),
        },
        Platform::Windows => match vsproj_outcome(vsproj, config) {
            Err(e) => Err(e),
            Ok(Some(a)) => Ok(a),
            Ok(None) => match nmake_outcome(build_make) {
                Some(a) => Ok(a),
                None => Err(LinkError::NoProjectOrMakefile),
            },
        },
    }
}

pub open spec fn result_view(r: Result<Vec<LinkArg>, LinkError>) -> Result<Seq<LinkArgView>, LinkError> {
    match r {
        Ok(v) => Ok(args_view(v@)),
        Err(e) => Err(e),
    }
}

/// Recovers the link arguments of a finished native build from the files it
/// left behind, for the configuration `build_type`. On Unix-like platforms
/// the linker transcript is parsed, and its absence is an error. On Windows
/// the project file is tried first and the makefile fragment second; a
/// malformed project file is an error, and so is a result from neither.
pub fn get_linking_from_cmake(platform: Platform, artifacts: &BuildArtifacts, build_type: &str) -> (r: Result<Vec<LinkArg>, LinkError>)
    ensures
        result_view(r) == selected_args(
            platform,
            opt_text(artifacts.link_txt),
            opt_text(artifacts.vsproj),
            opt_text(artifacts.build_make),
            build_type@,
        ),
{
    match platform {
        Platform::Unix => match &artifacts.link_txt {
            None => Err(LinkError::MissingLinkTxt),
            Some(t) => Ok(parse_link_txt(t.as_str())),
        },
        Platform::Windows => {
            if let Some(x) = &artifacts.vsproj {
                match get_linking_from_vsproj(x.as_str(), build_type) {
                    Err(_) => {
                        return Err(LinkError::MalformedProject);
                    },
                    Ok(Some(libs)) => {
                        return Ok(libs);
                    },
                    Ok(None) => {},
                }
            }
            let made = match &artifacts.build_make {
                None => None,
                Some(t) => get_linking_from_nmake(t.as_str()),
            };
            match made {
                Some(libs) => Ok(libs),
                None => Err(LinkError::NoProjectOrMakefile),
            }
        },
    }
}

/// Where the project file lists nothing for the configuration and the
/// makefile fragment has no dynamic-library section, the Windows selection
/// fails; on Unix-like platforms a missing transcript is a failure.
pub proof fn lemma_no_backend_is_fatal(
    link_txt: Option<Seq<char>>,
    vsproj: Option<Seq<char>>,
    build_make: Option<Seq<char>>,
    config: Seq<char>,
)
    ensures
        vsproj_outcome(vsproj, config) == Ok::<Option<Seq<LinkArgView>>, LinkError>(None)
            && nmake_outcome(build_make).is_none() ==> selected_args(Platform::Windows, link_txt, vsproj, build_make, config) is Err,
        link_txt.is_none() ==> selected_args(Platform::Unix, link_txt, vsproj, build_make, config) == Err::<Seq<LinkArgView>, LinkError>(LinkError::MissingLinkTxt),
{
}

/// Extraction is a function of the artifacts: any two results that the
/// selector may give for the same files and configuration are equal,
/// element by element and in the same order.
pub proof fn lemma_extraction_is_repeatable(
    platform: Platform,
    artifacts: BuildArtifacts,
    build_type: Seq<char>,
    first: Result<Vec<LinkArg>, LinkError>,
    second: Result<Vec<LinkArg>, LinkError>,
)
    requires
        result_view(first) == selected_args(platform, opt_text(artifacts.link_txt), opt_text(artifacts.vsproj), opt_text(artifacts.build_make), build_type),
        result_view(second) == selected_args(platform, opt_text(artifacts.link_txt), opt_text(artifacts.vsproj), opt_text(artifacts.build_make), build_type),
    ensures
        result_view(first) == result_view(second),
        first is Ok <==> second is Ok,
        first is Ok && second is Ok ==> first->Ok_0@.len() == second->Ok_0@.len() && (forall|k: int|
            0 <= k < first->Ok_0@.len() ==> #[trigger] first->Ok_0@[k]@ == second->Ok_0@[k]@),
{
    if first is Ok && second is Ok {
        assert(args_view(first->Ok_0@).len() == args_view(second->Ok_0@).len());
        assert forall|k: int| 0 <= k < first->Ok_0@.len() implies #[trigger] first->Ok_0@[k]@ == second->Ok_0@[k]@ by {
            assert(args_view(first->Ok_0@)[k] == first->Ok_0@[k]@);
            assert(args_view(second->Ok_0@)[k] == second->Ok_0@[k]@);
        }
    }
}

} // verus!
