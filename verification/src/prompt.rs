use vstd::prelude::*;
use vstd::string::*;

verus! {

/// What is left of the path `dir` once the leading components that make up
/// the path `prefix` are taken off, if `prefix` leads `dir`.
pub uninterp spec fn path_relative_to(dir: Seq<char>, prefix: Seq<char>) -> Option<Seq<char>>;

/// The path `dir` relative to `prefix`.
///
/// Trusted: calls `Path::strip_prefix`, whose result depends on the two paths
/// alone and is named `path_relative_to`; the rest is written back as text
/// with `to_string_lossy`.
#[verifier::external_body]
fn strip_path_prefix(dir: &str, prefix: &str) -> (rest: Option<String>)
    ensures
        match rest {
            Some(r) => path_relative_to(dir@, prefix@) == Some(r@),
            None => path_relative_to(dir@, prefix@) is None,
        },
{
    std::path::Path::new(dir).strip_prefix(prefix).ok().map(|p| p.to_string_lossy().to_string())
}

/// The directory as the prompt shows it: under `~/` when it lies in the home
/// directory, as it is otherwise.
pub open spec fn dir_segment_text(dir: Seq<char>, relative_to_home: Option<Seq<char>>) -> Seq<char> {
    match relative_to_home {
        Some(rest) => "~/"@ + rest,
        None => dir,
    }
}

/// The prompt: `<user> > <directory> --> `.
pub open spec fn prompt_text(user: Seq<char>, dir_segment: Seq<char>) -> Seq<char> {
    user + " > "@ + dir_segment + " --> "@
}

/// The prompt for `user` in `dir`, given what is left of `dir` once the home
/// directory is taken off its front (`None`: it is not under it).
pub fn prompt_from_parts(user: &str, dir: &str, relative_to_home: Option<&String>) -> (p: String)
    ensures
        p@ == prompt_text(
            user@,
            dir_segment_text(
                dir@,
                match relative_to_home {
                    Some(r) => Some(r@),
                    None => None,
                },
            ),
        ),
{
    let mut p = String::from_str(user);
    p.append(" > ");
    match relative_to_home {
        Some(rest) => {
            p.append("~/");
            p.append(rest.as_str());
        },
        None => {
            p.append(dir);
        },
    }
    p.append(" --> ");
    p
}

/// The user shown when `USER` is not set.
pub open spec fn default_user() -> Seq<char> {
    "anon"@
}

/// The directory shown when the current one cannot be told.
pub open spec fn default_dir() -> Seq<char> {
    "<unknown>"@
}

/// The prompt that the module sets: `user` (`anon` when unknown) and the
/// current directory `dir` (`<unknown>` when unknown), under `~/` when it lies
/// in the home directory `home`.
pub fn compute_prompt(user: Option<&str>, dir: Option<&str>, home: Option<&str>) -> (p: String)
    ensures
        ({
            let u = match user {
                Some(u) => u@,
                None => default_user(),
            };
            let d = match dir {
                Some(d) => d@,
                None => default_dir(),
            };
            let rel = match home {
                Some(h) => path_relative_to(d, h@),
                None => None,
            };
            p@ == prompt_text(u, dir_segment_text(d, rel))
        }),
{
    let u = match user {
        Some(u) => u,
        None => "anon",
    };
    let d = match dir {
        Some(d) => d,
        None => "<unknown>",
    };
    let rel = match home {
        Some(h) => strip_path_prefix(d, h),
        None => None,
    };
    match &rel {
        Some(r) => prompt_from_parts(u, d, Some(r)),
        None => prompt_from_parts(u, d, None),
    }
}

/// Law: the prompt is `<user> > ~/<rest> --> ` whenever the directory lies in
/// the home directory with `rest` left once the home directory is taken off,
/// whatever `rest` is (nested directories included), and
/// `<user> > <directory> --> ` when it does not.
pub proof fn lemma_prompt_shape(user: Seq<char>, dir: Seq<char>, home: Seq<char>)
    ensures
        path_relative_to(dir, home) matches Some(rest) ==> prompt_text(
            user,
            dir_segment_text(dir, path_relative_to(dir, home)),
        ) == user + " > ~/"@ + rest + " --> "@,
        path_relative_to(dir, home) is None ==> prompt_text(
            user,
            dir_segment_text(dir, path_relative_to(dir, home)),
        ) == user + " > "@ + dir + " --> "@,
{
    reveal_strlit(" > ~/");
    reveal_strlit(" > ");
    reveal_strlit("~/");
    if let Some(rest) = path_relative_to(dir, home) {
        assert(" > "@ + "~/"@ =~= " > ~/"@);
        assert(user + " > "@ + ("~/"@ + rest) + " --> "@ =~= user + " > ~/"@ + rest + " --> "@);
    }
}

/// Law: without a home directory, or without a user or directory, the prompt
/// is written from what is known: `anon` for the user and `<unknown>` for the
/// directory, which is then shown as it is.
pub proof fn lemma_prompt_defaults(user: Seq<char>)
    ensures
        prompt_text(user, dir_segment_text("<unknown>"@, None)) == user + " > <unknown> --> "@,
        default_user() == "anon"@,
        default_dir() == "<unknown>"@,
{
    reveal_strlit(" > ");
    reveal_strlit("<unknown>");
    reveal_strlit(" --> ");
    reveal_strlit(" > <unknown> --> ");
    assert(user + " > "@ + "<unknown>"@ + " --> "@ =~= user + " > <unknown> --> "@);
}

} // verus!
