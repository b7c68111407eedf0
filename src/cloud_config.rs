//! The bootstrap document handed to a new instance: a start script with the
//! runner's registration token, written to disk and run once.
use vstd::prelude::*;
use crate::model::Pool;

verus! {

/// A file that the bootstrap document writes.
#[derive(Clone, Debug)]
pub struct WriteFile {
    pub path: String,
    pub content: String,
    pub permissions: String,
}

/// The bootstrap document: files to write and commands to run.
#[derive(Clone, Debug)]
pub struct Data {
    pub write_files: Vec<WriteFile>,
    pub runcmd: Vec<String>,
}

/// `s` with every occurrence of the non-empty `pat`, taken left to right and
/// without overlap, replaced by `rep`.
pub open spec fn replace_all(s: Seq<char>, pat: Seq<char>, rep: Seq<char>) -> Seq<char>
    decreases s.len(),
{
    if pat.len() == 0 || s.len() < pat.len() {
        s
    } else if s.subrange(0, pat.len() as int) == pat {
        rep + replace_all(s.subrange(pat.len() as int, s.len() as int), pat, rep)
    } else {
        seq![s[0]] + replace_all(s.drop_first(), pat, rep)
    }
}

/// Relies on str::replace: every non-overlapping match of `pat`, found from
/// the left, is replaced by `rep`.
#[verifier::external_body]
fn replace(s: &str, pat: &str, rep: &str) -> (r: String)
    requires
        pat@.len() > 0,
    ensures
        r@ == replace_all(s@, pat@, rep@),
{
    s.replace(pat, rep)
}

/// The start script: `template` with the token, the runner's user and the
/// runner's group put in place of their markers.
pub open spec fn script_of(template: Seq<char>, token: Seq<char>, user: Seq<char>, group: Seq<char>) -> Seq<char> {
    replace_all(
        replace_all(replace_all(template, "___JIT_CONFIG___"@, token), "___RUNNER_USER___"@, user),
        "___RUNNER_GROUP___"@,
        group,
    )
}

impl Data {
    /// The bootstrap document for a runner with the encoded registration
    /// token `encoded_jit_config`, from the start-script `template`.
    pub fn from_jitconfig(template: &str, encoded_jit_config: &str, pool: &Pool) -> (r: Data)
        ensures
            r.write_files@.len() == 1,
            r.write_files@[0].path@ == "/start.sh"@,
            r.write_files@[0].permissions@ == "0755"@,
            r.write_files@[0].content@ == script_of(
                template@,
                encoded_jit_config@,
                pool.instance.runner_user@,
                pool.instance.runner_group@,
            ),
            r.runcmd@.len() == 1,
            r.runcmd@[0]@ == "/start.sh"@,
    {
        proof {
            reveal_strlit("___JIT_CONFIG___");
            reveal_strlit("___RUNNER_USER___");
            reveal_strlit("___RUNNER_GROUP___");
        }
        let a = replace(template, "___JIT_CONFIG___", encoded_jit_config);
        let b = replace(a.as_str(), "___RUNNER_USER___", pool.instance.runner_user.as_str());
        let content = replace(b.as_str(), "___RUNNER_GROUP___", pool.instance.runner_group.as_str());
        let file = WriteFile {
            path: String::from_str("/start.sh"),
            permissions: String::from_str("0755"),
            content,
        };
        let mut write_files: Vec<WriteFile> = Vec::new();
        write_files.push(file);
        let mut runcmd: Vec<String> = Vec::new();
        runcmd.push(String::from_str("/start.sh"));
        Data { write_files, runcmd }
    }
}

} // verus!
