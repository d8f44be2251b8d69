use vstd::prelude::*;
use vstd::string::StringSliceAdditionalSpecFns;

verus! {

/// Where a scene description is read from.
pub enum SceneSource {
    /// The standard input stream.
    Stdin,
    /// The file at this path.
    File(String),
}

/// Whether `path` is the single token `-`, which names standard input.
pub open spec fn names_stdin(path: &str) -> bool {
    path.spec_bytes() == seq![45u8]
}

/// Decides where the scene description named by `path` is read from: the
/// token `-` stands for standard input, anything else for a file.
pub fn scene_source(path: &str) -> (r: SceneSource)
    ensures
        names_stdin(path) <==> r is Stdin,
        r matches SceneSource::File(f) ==> f@ == path@,
{
    let bytes = path.as_bytes();
    if bytes.len() == 1 && bytes[0] == 45 {
        assert(bytes@ =~= seq![45u8]);
        SceneSource::Stdin
    } else {
        SceneSource::File(path.to_owned())
    }
}

} // verus!
