use crate::error::BuildErrorView;
use crate::error::MinecraftServerBuildError;
use crate::server::MinecraftServer;
use crate::server::ServerView;
use vstd::prelude::*;

verus! {

/// Accumulates the optional settings of a launch configuration. Every
/// setter just records its value; nothing is checked until `build`.
#[derive(Debug, Clone)]
pub struct MinecraftServerBuilder {
    pub server_path: Option<String>,
    pub server_jar: Option<String>,
    pub java_path: Option<String>,
    pub java_args: Option<Vec<String>>,
    pub gui: Option<bool>,
}

/// The mathematical value of a [`MinecraftServerBuilder`]: which settings
/// have been given, each abstracted to its character sequences.
pub ghost struct BuilderView {
    pub server_path: Option<Seq<char>>,
    pub server_jar: Option<Seq<char>>,
    pub java_path: Option<Seq<char>>,
    pub java_args: Option<Seq<Seq<char>>>,
    pub gui: Option<bool>,
}

impl View for MinecraftServerBuilder {
    type V = BuilderView;

    open spec fn view(&self) -> BuilderView {
        BuilderView {
            server_path: self.server_path.deep_view(),
            server_jar: self.server_jar.deep_view(),
            java_path: self.java_path.deep_view(),
            java_args: self.java_args.deep_view(),
            gui: self.gui,
        }
    }
}

/// The interpreter a configuration resolves to: the path that was set, or
/// the platform command name `java` when none was.
pub open spec fn resolved_java_path(b: BuilderView) -> Seq<char> {
    if b.java_path is Some {
        b.java_path->0
    } else {
        "java"@
    }
}

/// What finalizing a builder decides, given the two facts only the
/// environment can supply: whether the configured working directory exists
/// on disk (`path_exists`) and whether invoking the resolved interpreter
/// with a version query succeeded (`java_ok`).
///
/// The checks run in a fixed order and stop at the first failure: a missing
/// server path, then a missing jar name, then a working directory not on
/// disk, then an interpreter that does not answer the probe. On success,
/// unset optional fields take their defaults: interpreter `java`, no extra
/// arguments, GUI off.
pub open spec fn build_spec(b: BuilderView, path_exists: bool, java_ok: bool) -> Result<
    ServerView,
    BuildErrorView,
> {
    if b.server_path is None {
        Err(BuildErrorView::MissingServerPath)
    } else if b.server_jar is None {
        Err(BuildErrorView::MissingServerJar)
    } else if !path_exists {
        Err(BuildErrorView::InvalidServerPath(b.server_path->0))
    } else if !java_ok {
        Err(BuildErrorView::InvalidJavaPath(resolved_java_path(b)))
    } else {
        Ok(
            ServerView {
                server_path: b.server_path->0,
                server_jar: b.server_jar->0,
                java_path: resolved_java_path(b),
                java_args: if b.java_args is Some {
                    b.java_args->0
                } else {
                    Seq::<Seq<char>>::empty()
                },
                gui: if b.gui is Some {
                    b.gui->0
                } else {
                    false
                },
            },
        )
    }
}

/// A build outcome abstracted to its mathematical value, so that a single
/// equation can relate `MinecraftServerBuilder::build` to [`build_spec`].
pub open spec fn view_build_result(r: Result<MinecraftServer, MinecraftServerBuildError>) -> Result<
    ServerView,
    BuildErrorView,
> {
    match r {
        Ok(s) => Ok(s@),
        Err(e) => Err(e@),
    }
}

impl MinecraftServerBuilder {
    /// A builder with nothing set yet.
    pub fn new() -> (r: Self)
        ensures
            r@ == (BuilderView {
                server_path: None,
                server_jar: None,
                java_path: None,
                java_args: None,
                gui: None,
            }),
    {
        MinecraftServerBuilder {
            server_path: None,
            server_jar: None,
            java_path: None,
            java_args: None,
            gui: None,
        }
    }

    /// Sets (or overwrites) the working directory the server runs in.
    pub fn server_path(self, path: String) -> (r: Self)
        ensures
            r@ == (BuilderView { server_path: Some(path@), ..self@ }),
    {
        MinecraftServerBuilder { server_path: Some(path), ..self }
    }

    /// Sets (or overwrites) the jar file name of the server.
    pub fn server_jar(self, jar: String) -> (r: Self)
        ensures
            r@ == (BuilderView { server_jar: Some(jar@), ..self@ }),
    {
        MinecraftServerBuilder { server_jar: Some(jar), ..self }
    }

    /// Sets (or overwrites) the interpreter executable path.
    pub fn java_path(self, path: String) -> (r: Self)
        ensures
            r@ == (BuilderView { java_path: Some(path@), ..self@ }),
    {
        MinecraftServerBuilder { java_path: Some(path), ..self }
    }

    /// Sets (or overwrites) the extra interpreter arguments.
    pub fn java_args(self, args: Vec<String>) -> (r: Self)
        ensures
            r@ == (BuilderView { java_args: Some(args.deep_view()), ..self@ }),
    {
        MinecraftServerBuilder { java_args: Some(args), ..self }
    }

    /// Sets (or overwrites) whether the server starts with its graphical
    /// console.
    pub fn gui(self, gui: bool) -> (r: Self)
        ensures
            r@ == (BuilderView { gui: Some(gui), ..self@ }),
    {
        MinecraftServerBuilder { gui: Some(gui), ..self }
    }

    /// The two paths validation probes the environment for, in validation
    /// order: the working directory whose existence must be checked, and
    /// the resolved interpreter to invoke with a version query. Fails,
    /// without naming any probe, exactly when a required field is unset.
    pub fn probe_targets(&self) -> (r: Result<(&str, &str), MinecraftServerBuildError>)
        ensures
            self@.server_path is None ==> (r matches Err(e) && e@
                == BuildErrorView::MissingServerPath),
            self@.server_path is Some && self@.server_jar is None ==> (r matches Err(e) && e@
                == BuildErrorView::MissingServerJar),
            self@.server_path is Some && self@.server_jar is Some ==> (r matches Ok(t) && t.0@
                == self@.server_path->0 && t.1@ == resolved_java_path(self@)),
    {
        match (&self.server_path, &self.server_jar) {
            (None, _) => Err(MinecraftServerBuildError::MissingServerPath),
            (Some(_), None) => Err(MinecraftServerBuildError::MissingServerJar),
            (Some(path), Some(_)) => {
                let java: &str = match &self.java_path {
                    Some(p) => p.as_str(),
                    None => "java",
                };
                Ok((path.as_str(), java))
            },
        }
    }

    /// Finalizes the configuration, deciding exactly as [`build_spec`] says.
    ///
    /// The caller supplies the two probe outcomes: whether the configured
    /// working directory exists on disk, and whether invoking the resolved
    /// interpreter with a version query succeeded. The checks stop at the
    /// first failure, so the error always names the first setting at fault.
    pub fn build(self, path_exists: bool, java_ok: bool) -> (r: Result<
        MinecraftServer,
        MinecraftServerBuildError,
    >)
        ensures
            view_build_result(r) == build_spec(self@, path_exists, java_ok),
    {
        let ghost b = self@;
        let MinecraftServerBuilder { server_path, server_jar, java_path, java_args, gui } = self;
        let server_path = match server_path {
            Some(p) => p,
            None => { return Err(MinecraftServerBuildError::MissingServerPath) },
        };
        let server_jar = match server_jar {
            Some(j) => j,
            None => { return Err(MinecraftServerBuildError::MissingServerJar) },
        };
        if !path_exists {
            return Err(MinecraftServerBuildError::InvalidServerPath(server_path));
        }
        let java_path = match java_path {
            Some(p) => p,
            None => "java".to_owned(),
        };
        if !java_ok {
            return Err(MinecraftServerBuildError::InvalidJavaPath(java_path));
        }
        let java_args = match java_args {
            Some(a) => a,
            None => Vec::new(),
        };
        let gui = match gui {
            Some(g) => g,
            None => false,
        };
        let server = MinecraftServer { server_path, server_jar, java_path, java_args, gui };
        proof {
            assert(build_spec(b, path_exists, java_ok) matches Ok(s) && s.java_args
                =~= server@.java_args);
        }
        Ok(server)
    }
}

/// A configuration with no working directory set always fails with
/// `MissingServerPath`, whatever the environment probes would have
/// reported — so nothing need be probed for it.
pub proof fn lemma_missing_server_path(b: BuilderView, path_exists: bool, java_ok: bool)
    requires
        b.server_path is None,
    ensures
        build_spec(b, path_exists, java_ok) == Err::<ServerView, BuildErrorView>(
            BuildErrorView::MissingServerPath,
        ),
{
}

/// A configuration with a working directory but no jar name always fails
/// with `MissingServerJar`, whatever the environment probes would have
/// reported.
pub proof fn lemma_missing_server_jar(b: BuilderView, path_exists: bool, java_ok: bool)
    requires
        b.server_path is Some,
        b.server_jar is None,
    ensures
        build_spec(b, path_exists, java_ok) == Err::<ServerView, BuildErrorView>(
            BuildErrorView::MissingServerJar,
        ),
{
}

/// When both required fields are set but the working directory is not on
/// disk, the build fails with `InvalidServerPath` carrying that very path,
/// whatever the interpreter probe would have reported.
pub proof fn lemma_invalid_server_path(b: BuilderView, java_ok: bool)
    requires
        b.server_path is Some,
        b.server_jar is Some,
    ensures
        build_spec(b, false, java_ok) == Err::<ServerView, BuildErrorView>(
            BuildErrorView::InvalidServerPath(b.server_path->0),
        ),
{
}

/// When both required fields are set and the working directory exists but
/// the interpreter probe failed, the build fails with `InvalidJavaPath`
/// carrying the resolved interpreter path.
pub proof fn lemma_invalid_java_path(b: BuilderView)
    requires
        b.server_path is Some,
        b.server_jar is Some,
    ensures
        build_spec(b, true, false) == Err::<ServerView, BuildErrorView>(
            BuildErrorView::InvalidJavaPath(resolved_java_path(b)),
        ),
{
}

/// A build succeeds exactly when both required fields are set and both
/// environment probes succeeded.
pub proof fn lemma_build_success_iff(b: BuilderView, path_exists: bool, java_ok: bool)
    ensures
        build_spec(b, path_exists, java_ok) is Ok <==> (b.server_path is Some && b.server_jar
            is Some && path_exists && java_ok),
{
}

/// Finalizing is deterministic: two builds of the same builder state, under
/// an unchanged environment, decide the same outcome — so finalizing twice
/// yields equivalent configurations.
pub proof fn lemma_build_deterministic(
    b: BuilderView,
    path_exists: bool,
    java_ok: bool,
    r1: Result<ServerView, BuildErrorView>,
    r2: Result<ServerView, BuildErrorView>,
)
    requires
        r1 == build_spec(b, path_exists, java_ok),
        r2 == build_spec(b, path_exists, java_ok),
    ensures
        r1 == r2,
{
}

} // verus!
