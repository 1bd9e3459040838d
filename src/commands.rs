use vstd::prelude::*;

verus! {

/// Run a command with the project's dependencies.
pub struct Run {
    /// The root directory of the project.
    pub project_dir: Option<String>,
    /// The command to run with the project's dependencies.
    pub command: Vec<String>,
    pub disable_telemetry: bool,
    pub offline: bool,
}

/// Start a development shell.
pub struct Shell {
    /// The root directory of the project.
    pub project_dir: Option<String>,
    pub disable_telemetry: bool,
    pub offline: bool,
}

/// The texts of a list of strings.
pub open spec fn texts(v: Seq<String>) -> Seq<Seq<char>> {
    v.map_values(|s: String| s@)
}

/// The arguments of `nix develop` that enter the flake in `flake_dir`.
pub open spec fn develop_args(flake_dir: Seq<char>) -> Seq<Seq<char>> {
    seq![
        "develop"@,
        "--extra-experimental-features"@,
        "flakes nix-command"@,
        "-L"@,
        "path://"@ + flake_dir,
    ]
}

fn develop_prefix(flake_dir: &str) -> (r: Vec<String>)
    ensures
        texts(r@) == develop_args(flake_dir@),
{
    let mut flake_ref = String::from_str("path://");
    flake_ref.append(flake_dir);
    let r = vec![
        String::from_str("develop"),
        String::from_str("--extra-experimental-features"),
        String::from_str("flakes nix-command"),
        String::from_str("-L"),
        flake_ref,
    ];
    assert(texts(r@) =~= develop_args(flake_dir@));
    r
}

impl Shell {
    /// The arguments of the `nix` invocation that opens the shell.
    pub fn nix_develop_args(&self, flake_dir: &str) -> (r: Vec<String>)
        ensures
            texts(r@) == develop_args(flake_dir@),
    {
        develop_prefix(flake_dir)
    }
}

impl Run {
    /// The arguments of the `nix` invocation that runs the command inside
    /// the environment.
    pub fn nix_develop_args(&self, flake_dir: &str) -> (r: Vec<String>)
        ensures
            texts(r@) == develop_args(flake_dir@) + seq!["-c"@] + texts(self.command@),
    {
        let mut r = develop_prefix(flake_dir);
        r.push(String::from_str("-c"));
        let ghost head = texts(r@);
        let n = self.command.len();
        let mut i: usize = 0;
        while i < n
            invariant
                n == self.command.len(),
                i <= n,
                head == develop_args(flake_dir@) + seq!["-c"@],
                texts(r@) == head + texts(self.command@.subrange(0, i as int)),
            decreases n - i,
        {
            let ghost prev = r@;
            let item = self.command[i].clone();
            r.push(item);
            proof {
                assert(r@ == prev.push(self.command@[i as int]));
                assert(texts(r@) =~= texts(prev).push(self.command@[i as int]@));
                assert(self.command@.subrange(0, i + 1) =~= self.command@.subrange(
                    0,
                    i as int,
                ).push(self.command@[i as int]));
                assert(texts(r@) =~= head + texts(self.command@.subrange(0, i + 1)));
            }
            i = i + 1;
        }
        assert(self.command@.subrange(0, n as int) =~= self.command@);
        r
    }
}

} // verus!
