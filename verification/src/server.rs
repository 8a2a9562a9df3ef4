use vstd::prelude::*;
use vstd::string::StringExecFns;

verus! {

/// A validated, immutable launch configuration for the server process:
/// where to run it, which jar to hand the interpreter, and how.
///
/// Values are normally produced by `MinecraftServerBuilder::build`, which
/// checks the paths before constructing one; `MinecraftServer::new` builds
/// one directly from already-trusted values.
#[derive(Debug, Clone, PartialEq, Eq)]
pub struct MinecraftServer {
    /// The working directory the child process is started in.
    pub server_path: String,
    /// The jar file handed to the interpreter with `-jar`.
    pub server_jar: String,
    /// The interpreter executable that runs the jar.
    pub java_path: String,
    /// Extra interpreter arguments, placed before `-jar` in the given order.
    pub java_args: Vec<String>,
    /// Whether the server is started with its graphical console. When this
    /// is false, `--nogui` is appended to the command line; when it is true,
    /// nothing is appended.
    pub gui: bool,
}

/// The mathematical value of a [`MinecraftServer`]: every string abstracted
/// to its character sequence.
pub ghost struct ServerView {
    pub server_path: Seq<char>,
    pub server_jar: Seq<char>,
    pub java_path: Seq<char>,
    pub java_args: Seq<Seq<char>>,
    pub gui: bool,
}

impl View for MinecraftServer {
    type V = ServerView;

    open spec fn view(&self) -> ServerView {
        ServerView {
            server_path: self.server_path@,
            server_jar: self.server_jar@,
            java_path: self.java_path@,
            java_args: self.java_args.deep_view(),
            gui: self.gui,
        }
    }
}

/// The full command line a configuration launches, interpreter first:
/// `<java_path> <java_args...> -jar <server_jar>`, with `--nogui` appended
/// exactly when the GUI is off.
pub open spec fn spec_command(s: ServerView) -> Seq<Seq<char>> {
    seq![s.java_path] + s.java_args + seq!["-jar"@, s.server_jar] + if s.gui {
        Seq::<Seq<char>>::empty()
    } else {
        seq!["--nogui"@]
    }
}

impl MinecraftServer {
    /// Assembles a launch configuration directly from its parts, bypassing
    /// validation; every field is taken as given.
    pub fn new(
        server_path: String,
        server_jar: String,
        java_path: String,
        java_args: Vec<String>,
        gui: bool,
    ) -> (r: Self)
        ensures
            r@ == (ServerView {
                server_path: server_path@,
                server_jar: server_jar@,
                java_path: java_path@,
                java_args: java_args.deep_view(),
                gui,
            }),
    {
        MinecraftServer { server_path, server_jar, java_path, java_args, gui }
    }

    /// The exact sequence of command-line tokens, interpreter included, that
    /// this configuration launches.
    pub fn get_command(&self) -> (r: Vec<String>)
        ensures
            r.deep_view() == spec_command(self@),
    {
        let mut cmd: Vec<String> = Vec::new();
        cmd.push(self.java_path.clone());
        let mut i: usize = 0;
        while i < self.java_args.len()
            invariant
                i <= self.java_args.len(),
                cmd@.len() == 1 + i,
                cmd@[0]@ == self.java_path@,
                forall|j: int| 0 <= j < i ==> cmd@[j + 1]@ == self.java_args@[j]@,
            decreases self.java_args.len() - i,
        {
            cmd.push(self.java_args[i].clone());
            i += 1;
        }
        cmd.push("-jar".to_owned());
        cmd.push(self.server_jar.clone());
        if !self.gui {
            cmd.push("--nogui".to_owned());
        }
        proof {
            assert(cmd.deep_view() =~= spec_command(self@));
        }
        cmd
    }
}

} // verus!
