use std::cell::RefCell;
use std::collections::VecDeque;
use std::path::Path;

use frork::assertions::{
    require_bin, Brew, BrewBundle, Directory, Git, LuaAssertion, LuaAssertionType, Symlink,
};
use frork::bindings::Environment;
use frork::error::{CallbackCause, FrorkError, LuaErrorInfo};
use frork::protocol::{Answer, Failure, LuaFn, Request, Step};
use frork::status::Status;

// --- Running an exchange -----------------------------------------------------

/// Drives an exchange to its end, answering each request with `answer`.
fn drive<T>(
    mut answer: impl FnMut(&Request) -> Answer,
    step: impl Fn(&Vec<Answer>) -> Step<T>,
) -> Result<T, Failure> {
    let mut answers = Vec::new();
    loop {
        match step(&answers) {
            Step::Ask(request) => answers.push(answer(&request)),
            Step::Finish(result) => return result,
        }
    }
}

/// Answers file-system requests by looking at this machine, and `git`
/// commands as a tiny git would: a clone directory remembers its remote.
fn on_this_machine(request: &Request) -> Answer {
    match request {
        Request::FindBin { bin } | Request::HasBin { bin } => Answer::Found(bin == "git"),
        Request::Run { cmd, args, .. } if cmd == "git" => fake_git(args),
        Request::Exists { path } => Answer::Found(Path::new(path).exists()),
        Request::IsDir { path } => Answer::Found(Path::new(path).is_dir()),
        Request::IsEmptyDir { path } => {
            Answer::Found(fs_err::read_dir(path).unwrap().next().is_none())
        }
        Request::ReadLink { path } => Answer::Link(
            fs_err::read_link(path)
                .ok()
                .map(|p| p.to_string_lossy().to_string()),
        ),
        Request::CreateSymlink { source, target } => Answer::Done(
            fs_err::os::unix::fs::symlink(source, target).map_err(|e| e.to_string()),
        ),
        Request::CreateDirAll { path } => {
            Answer::Done(fs_err::create_dir_all(path).map_err(|e| e.to_string()))
        }
        other => panic!("not a request for this machine: {other:?}"),
    }
}

/// `git clone <url> <dir>` and `git -C <dir> config --get remote.origin.url`,
/// with a clone's remote kept in `<dir>/.git/origin`. A remote must be an
/// existing directory made by `bare_origin`.
fn fake_git(args: &[String]) -> Answer {
    let args: Vec<&str> = args.iter().map(|a| a.as_str()).collect();
    match args.as_slice() {
        ["clone", url, dir] => {
            if !Path::new(url).join("HEAD").exists() {
                return Answer::Ran {
                    stdout: String::new(),
                    code: 128,
                };
            }
            fs_err::create_dir_all(Path::new(dir).join(".git")).unwrap();
            fs_err::write(Path::new(dir).join(".git/origin"), url).unwrap();
            Answer::Ran {
                stdout: String::new(),
                code: 0,
            }
        }
        ["-C", dir, "config", "--get", "remote.origin.url"] => {
            match fs_err::read_to_string(Path::new(dir).join(".git/origin")) {
                Ok(url) => Answer::Ran {
                    stdout: format!("{url}\n"),
                    code: 0,
                },
                Err(_) => Answer::Ran {
                    stdout: String::new(),
                    code: 128,
                },
            }
        }
        other => panic!("git {other:?} is not known here"),
    }
}

fn env() -> Environment {
    Environment::new()
}

fn text(failure: Failure) -> String {
    match failure {
        Failure::Message(m) | Failure::Unimplemented(m) => m,
        Failure::Frork(e) => e.message(),
        Failure::Unexpected => "unexpected answer".to_string(),
    }
}

// --- TypedFactory ------------------------------------------------------------

#[test]
fn test_typed_factory_creates_assertion() {
    let assertion = Directory::new("/tmp", &env()).unwrap();
    assert_eq!(assertion.display(), "directory /tmp");
}

// --- Symlink -----------------------------------------------------------------

#[test]
fn test_symlink_lifecycle() {
    let dir = tempfile::TempDir::new().unwrap();
    let source = dir.path().join("source.txt");
    fs_err::write(&source, "content").unwrap();
    let target = dir.path().join("link");

    let symlink = Symlink::new(target.to_str().unwrap(), source.to_str().unwrap(), &env()).unwrap();

    assert_eq!(
        symlink.display(),
        format!("symlink {} {}", target.display(), source.display())
    );
    assert!(matches!(
        drive(on_this_machine, |a| symlink.status_step(a)).unwrap(),
        Status::Missing
    ));

    drive(on_this_machine, |a| symlink.install_step(a)).unwrap();
    assert!(matches!(
        drive(on_this_machine, |a| symlink.status_step(a)).unwrap(),
        Status::Okay
    ));
}

#[test]
fn test_symlink_install_failure() {
    let dir = tempfile::TempDir::new().unwrap();
    let symlink = Symlink::new(
        dir.path().join("missing-parent/link").to_str().unwrap(),
        dir.path().join("source.txt").to_str().unwrap(),
        &env(),
    )
    .unwrap();

    let error = drive(on_this_machine, |a| symlink.install_step(a)).unwrap_err();
    assert!(text(error).contains("Failed to create symlink"));
}

#[test]
fn test_symlink_from_lua() {
    let symlink = Symlink::new("/tmp/link", "/tmp/source", &env()).unwrap();

    assert_eq!(symlink.target.as_str(), "/tmp/link");
    assert_eq!(symlink.source.as_str(), "/tmp/source");
}

#[test]
fn symlink_cases_not_handled_yet() {
    let dir = tempfile::TempDir::new().unwrap();
    let file = dir.path().join("file");
    fs_err::write(&file, "content").unwrap();
    let symlink = Symlink::new(file.to_str().unwrap(), "/tmp/source", &env()).unwrap();
    let Err(Failure::Unimplemented(m)) = drive(on_this_machine, |a| symlink.status_step(a)) else {
        panic!("expected an unhandled case");
    };
    assert_eq!(m, format!("symlink {} /tmp/source exists but is not a symlink", file.display()));

    let link = dir.path().join("link");
    fs_err::os::unix::fs::symlink(&file, &link).unwrap();
    let symlink = Symlink::new(link.to_str().unwrap(), "/tmp/source", &env()).unwrap();
    let Err(Failure::Unimplemented(m)) = drive(on_this_machine, |a| symlink.status_step(a)) else {
        panic!("expected an unhandled case");
    };
    assert!(m.ends_with("points to the wrong target"));
}

#[test]
fn lenient_symlink_words_unhandled_cases_as_before() {
    let symlink = Symlink::new("/tmp/link", "/tmp/source", &env()).unwrap();
    let not_a_link = vec![Answer::Found(true), Answer::Link(None)];
    let Step::Finish(Err(Failure::Unimplemented(m))) = symlink.lenient_status_step(&not_a_link) else {
        panic!("expected an unhandled case");
    };
    assert_eq!(m, "symlink /tmp/link /tmp/source target exists but is not a symlink");

    let elsewhere = vec![Answer::Found(true), Answer::Link(Some("/tmp/other".to_string()))];
    let Step::Finish(Err(Failure::Unimplemented(m))) = symlink.lenient_status_step(&elsewhere) else {
        panic!("expected an unhandled case");
    };
    assert_eq!(m, "symlink /tmp/link /tmp/source points to wrong target");

    let here = vec![Answer::Found(true), Answer::Link(Some("/tmp/source".to_string()))];
    assert!(matches!(symlink.lenient_status_step(&here), Step::Finish(Ok(Status::Okay))));
    assert!(matches!(symlink.status_step(&here), Step::Finish(Ok(Status::Okay))));
}

#[test]
fn link_verdict_takes_the_comparison() {
    let symlink = Symlink::new("/tmp/link", "/tmp/source", &env()).unwrap();
    let link = Some("/tmp/source/".to_string());
    assert!(matches!(symlink.link_verdict(false, &link, true), Step::Finish(Ok(Status::Okay))));
    let Step::Finish(Err(Failure::Unimplemented(m))) = symlink.link_verdict(false, &link, false) else {
        panic!("expected an unhandled case");
    };
    assert_eq!(m, "symlink /tmp/link /tmp/source points to the wrong target");
    let Step::Finish(Err(Failure::Unimplemented(m))) = symlink.link_verdict(false, &None, true) else {
        panic!("expected an unhandled case");
    };
    assert_eq!(m, "symlink /tmp/link /tmp/source exists but is not a symlink");
    // `Path` compares by components, so a trailing slash still names the source.
    let trailing = vec![Answer::Found(true), Answer::Link(link)];
    assert!(matches!(symlink.status_step(&trailing), Step::Finish(Ok(Status::Okay))));
}

// --- Directory ---------------------------------------------------------------

#[test]
fn test_directory_lifecycle() {
    let dir = tempfile::TempDir::new().unwrap();
    let path = dir.path().join("nested/deep");
    let directory = Directory::new(path.to_str().unwrap(), &env()).unwrap();

    assert_eq!(directory.display(), format!("directory {}", path.display()));
    assert!(matches!(
        drive(on_this_machine, |a| directory.status_step(a)).unwrap(),
        Status::Missing
    ));

    drive(on_this_machine, |a| directory.install_step(a)).unwrap();
    assert!(matches!(
        drive(on_this_machine, |a| directory.status_step(a)).unwrap(),
        Status::Okay
    ));
}

#[test]
fn test_directory_install_failure() {
    let dir = tempfile::TempDir::new().unwrap();
    let blocker = dir.path().join("blocker");
    fs_err::write(&blocker, "not a directory").unwrap();

    let directory = Directory::new(blocker.join("child").to_str().unwrap(), &env()).unwrap();
    assert!(drive(on_this_machine, |a| directory.install_step(a)).is_err());
}

#[test]
fn lenient_directory_install_says_what_failed() {
    let directory = Directory::new("/tmp/d", &env()).unwrap();
    let refused = vec![Answer::Done(Err("Not a directory".to_string()))];
    let Step::Finish(Err(Failure::Message(m))) = directory.lenient_install_step(&refused) else {
        panic!("expected a failure");
    };
    assert_eq!(m, "Failed to create directory: Not a directory");
    let Step::Finish(Err(Failure::Message(m))) = directory.install_step(&refused) else {
        panic!("expected a failure");
    };
    assert_eq!(m, "Not a directory");
}

#[test]
fn test_directory_from_lua() {
    let directory = Directory::new("/tmp", &env()).unwrap();

    assert_eq!(directory.path.as_str(), "/tmp");
}

// --- Git ---------------------------------------------------------------------

fn bare_origin(dir: &Path) -> String {
    let origin = dir.join("origin.git");
    fs_err::create_dir_all(&origin).unwrap();
    fs_err::write(origin.join("HEAD"), "ref: refs/heads/main\n").unwrap();
    origin.to_str().unwrap().to_string()
}

#[test]
fn test_git_lifecycle() {
    let dir = tempfile::TempDir::new().unwrap();
    let remote_url = bare_origin(dir.path());
    let clone = dir.path().join("clone");

    let git = Git::new(clone.to_str().unwrap(), &remote_url, &env()).unwrap();

    assert_eq!(git.display(), format!("git {} {}", clone.display(), remote_url));
    assert!(matches!(
        drive(on_this_machine, |a| git.status_step(a)).unwrap(),
        Status::Missing
    ));

    drive(on_this_machine, |a| git.install_step(a)).unwrap();
    assert!(matches!(
        drive(on_this_machine, |a| git.status_step(a)).unwrap(),
        Status::Okay
    ));
}

#[test]
fn test_git_status_conflicts() {
    let dir = tempfile::TempDir::new().unwrap();
    let remote_url = bare_origin(dir.path());

    // A file where a directory is expected.
    let file = dir.path().join("a-file");
    fs_err::write(&file, "content").unwrap();
    let git = Git::new(file.to_str().unwrap(), &remote_url, &env()).unwrap();
    let Status::ConflictUpgrade(conflict) = drive(on_this_machine, |a| git.status_step(a)).unwrap()
    else {
        panic!("expected a conflict for a non-directory path");
    };
    assert_eq!(conflict.expected, "directory");
    assert_eq!(conflict.actual, "file");

    // An empty directory counts as missing rather than conflicting.
    let empty = dir.path().join("empty");
    fs_err::create_dir_all(&empty).unwrap();
    let git = Git::new(empty.to_str().unwrap(), &remote_url, &env()).unwrap();
    assert!(matches!(
        drive(on_this_machine, |a| git.status_step(a)).unwrap(),
        Status::Missing
    ));

    // A non-empty directory that is not a repo has no remote to read.
    let not_a_repo = dir.path().join("not-a-repo");
    fs_err::create_dir_all(&not_a_repo).unwrap();
    fs_err::write(not_a_repo.join("file.txt"), "content").unwrap();
    let git = Git::new(not_a_repo.to_str().unwrap(), &remote_url, &env()).unwrap();
    let Status::ConflictUpgrade(conflict) = drive(on_this_machine, |a| git.status_step(a)).unwrap()
    else {
        panic!("expected a conflict when the remote cannot be read");
    };
    assert_eq!(conflict.actual, "failed to get remote url");
}

#[test]
fn test_git_status_wrong_remote() {
    let dir = tempfile::TempDir::new().unwrap();
    let remote_url = bare_origin(dir.path());
    let clone = dir.path().join("clone");

    let first = Git::new(clone.to_str().unwrap(), &remote_url, &env()).unwrap();
    drive(on_this_machine, |a| first.install_step(a)).unwrap();

    let git = Git::new(clone.to_str().unwrap(), "https://example.com/other.git", &env()).unwrap();
    let Status::ConflictUpgrade(conflict) = drive(on_this_machine, |a| git.status_step(a)).unwrap()
    else {
        panic!("expected a conflict for a mismatched remote");
    };
    assert_eq!(conflict.expected, "https://example.com/other.git");
    assert!(conflict.actual.contains(&remote_url));
}

#[test]
fn test_git_install_failure() {
    let dir = tempfile::TempDir::new().unwrap();
    let git = Git::new(
        dir.path().join("clone").to_str().unwrap(),
        &dir.path().join("does-not-exist.git").display().to_string(),
        &env(),
    )
    .unwrap();

    let error = drive(on_this_machine, |a| git.install_step(a)).unwrap_err();
    assert!(text(error).contains("Failed to clone git repository"));
}

#[test]
fn test_git_from_lua() {
    let git = Git::new("/tmp/repo", "https://example.com/r.git", &env()).unwrap();

    assert_eq!(git.dir.as_str(), "/tmp/repo");
    assert_eq!(git.remote_url, "https://example.com/r.git");
}

#[test]
fn git_needs_git_on_the_path() {
    let git = Git::new("/tmp/repo", "https://example.com/r.git", &env()).unwrap();
    let error = git.status_step(&vec![Answer::Found(false)]);
    let Step::Finish(Err(Failure::Message(m))) = error else {
        panic!("expected a missing binary");
    };
    assert_eq!(m, "Required binary 'git' not found in PATH");
}

// --- Brew --------------------------------------------------------------------

/// Records every command it is asked to run and replays canned exit codes.
#[derive(Default)]
struct FakeRunner {
    missing_bins: Vec<&'static str>,
    exit_codes: RefCell<VecDeque<i32>>,
    calls: RefCell<Vec<String>>,
}

impl FakeRunner {
    fn new(exit_codes: &[i32]) -> Self {
        Self {
            exit_codes: RefCell::new(exit_codes.iter().copied().collect()),
            ..Default::default()
        }
    }

    fn without_bin(bin: &'static str) -> Self {
        Self {
            missing_bins: vec![bin],
            ..Default::default()
        }
    }

    fn calls(&self) -> Vec<String> {
        self.calls.borrow().clone()
    }

    fn answer(&self, request: &Request) -> Answer {
        match request {
            Request::HasBin { bin } | Request::FindBin { bin } => {
                Answer::Found(!self.missing_bins.contains(&bin.as_str()))
            }
            Request::Run { cmd, args, .. } => {
                self.calls
                    .borrow_mut()
                    .push(format!("{cmd} {}", args.join(" ")));
                let code = self.exit_codes.borrow_mut().pop_front().unwrap_or(0);
                Answer::Ran {
                    stdout: format!("output of {cmd}"),
                    code,
                }
            }
            other => panic!("not a runner request: {other:?}"),
        }
    }
}

#[test]
fn test_command_runner_require_bin() {
    let runner = FakeRunner::without_bin("brew");
    let present = |bin: &str| !runner.missing_bins.contains(&bin);

    assert!(require_bin("git", present("git")).is_ok());
    let error = require_bin("brew", present("brew")).unwrap_err();
    assert!(error.contains("not found in PATH"));
}

#[test]
fn test_brew_display_and_from_lua() {
    let brew = Brew::new();

    assert_eq!(brew.display(), "brew");
}

#[test]
fn test_brew_status_without_brew_installed() {
    let runner = FakeRunner::without_bin("brew");
    let brew = Brew::new();

    assert!(matches!(
        drive(|r| runner.answer(r), |a| brew.status_step(a)).unwrap(),
        Status::Missing
    ));
    assert!(runner.calls().is_empty());
}

#[test]
fn test_brew_status_reflects_version_exit_code() {
    let runner = FakeRunner::new(&[0]);
    let brew = Brew::new();
    assert!(matches!(
        drive(|r| runner.answer(r), |a| brew.status_step(a)).unwrap(),
        Status::Okay
    ));
    assert_eq!(runner.calls(), ["brew --version"]);

    // Present on PATH but not runnable.
    let runner = FakeRunner::new(&[1]);
    assert!(matches!(
        drive(|r| runner.answer(r), |a| brew.status_step(a)).unwrap(),
        Status::Missing
    ));
}

#[test]
fn test_brew_install() {
    let runner = FakeRunner::new(&[0]);
    let brew = Brew::new();
    drive(|r| runner.answer(r), |a| brew.install_step(a)).unwrap();
    assert!(runner.calls()[0].contains("install.sh"));

    let runner = FakeRunner::new(&[1]);
    let error = drive(|r| runner.answer(r), |a| brew.install_step(a)).unwrap_err();
    assert!(text(error).contains("Failed to install Homebrew"));
}

// --- BrewBundle --------------------------------------------------------------

fn brew_bundle() -> BrewBundle {
    BrewBundle::new("/tmp/Brewfile", &env()).unwrap()
}

#[test]
fn test_brew_bundle_display_and_from_lua() {
    let bundle = brew_bundle();

    assert_eq!(bundle.display(), "brew-bundle /tmp/Brewfile");
    assert_eq!(bundle.brewfile.as_str(), "/tmp/Brewfile");
}

#[test]
fn test_brew_bundle_is_macos_only() {
    let runner = FakeRunner::default();
    let bundle = brew_bundle();

    assert!(drive(|r| runner.answer(r), |a| bundle.status_step(false, a)).is_err());
    assert!(drive(|r| runner.answer(r), |a| bundle.install_step(false, a)).is_err());
}

#[test]
fn test_brew_bundle_status_requires_brew() {
    let runner = FakeRunner::without_bin("brew");
    let bundle = brew_bundle();

    assert!(text(drive(|r| runner.answer(r), |a| bundle.status_step(true, a)).unwrap_err())
        .contains("brew"));
    assert!(text(drive(|r| runner.answer(r), |a| bundle.install_step(true, a)).unwrap_err())
        .contains("brew"));
}

#[test]
fn test_brew_bundle_status_branches() {
    let bundle = brew_bundle();

    // First check fails: packages are missing outright.
    let runner = FakeRunner::new(&[1]);
    assert!(matches!(
        drive(|r| runner.answer(r), |a| bundle.status_step(true, a)).unwrap(),
        Status::Missing
    ));

    // First check passes, second fails: installed but out of date.
    let runner = FakeRunner::new(&[0, 1]);
    let Status::ConflictUpgrade(conflict) =
        drive(|r| runner.answer(r), |a| bundle.status_step(true, a)).unwrap()
    else {
        panic!("expected a conflict when packages need upgrading");
    };
    assert_eq!(conflict.actual, "packages need upgrade");

    // Both checks pass.
    let runner = FakeRunner::new(&[0, 0]);
    assert!(matches!(
        drive(|r| runner.answer(r), |a| bundle.status_step(true, a)).unwrap(),
        Status::Okay
    ));
    assert_eq!(
        runner.calls(),
        [
            "brew bundle check --no-upgrade --file=/tmp/Brewfile",
            "brew bundle check --file=/tmp/Brewfile",
        ]
    );
}

#[test]
fn test_brew_bundle_install() {
    let bundle = brew_bundle();
    let runner = FakeRunner::new(&[0]);
    drive(|r| runner.answer(r), |a| bundle.install_step(true, a)).unwrap();
    assert_eq!(runner.calls(), ["brew bundle install --file=/tmp/Brewfile"]);

    let runner = FakeRunner::new(&[1]);
    let error = drive(|r| runner.answer(r), |a| bundle.install_step(true, a)).unwrap_err();
    assert!(text(error).contains("Failed to install brew bundle"));
}

#[test]
fn brew_bundle_checks_run_without_auto_update() {
    let bundle = brew_bundle();
    let Step::Ask(Request::Run { envs, .. }) = bundle.status_step(true, &vec![Answer::Found(true)])
    else {
        panic!("expected the first check");
    };
    assert_eq!(
        envs,
        [("HOMEBREW_NO_AUTO_UPDATE".to_string(), "true".to_string())]
    );
}

// --- Debug -------------------------------------------------------------------

/// A stand-in for a Lua function handle.
#[derive(Clone, Debug, PartialEq)]
struct LuaFunction(&'static str);

fn lua_error(message: &str) -> LuaErrorInfo {
    LuaErrorInfo {
        display: format!("runtime error: {message}"),
        callback: None,
    }
}

#[test]
fn test_debug_defaults_to_ok() {
    let debug: frork::assertions::Debug<LuaFunction> = frork::assertions::Debug::new(None, None);

    assert_eq!(debug.display(), "debug");
    assert!(matches!(
        drive(on_this_machine, |a| debug.status_step(a)).unwrap(),
        Status::Okay
    ));

    let error = drive(on_this_machine, |a| debug.install_step(a)).unwrap_err();
    assert!(text(error).contains("Install not implemented for debug assertion"));
}

#[test]
fn test_debug_runs_lua_functions() {
    let debug = frork::assertions::Debug::new(Some(LuaFunction("status")), Some(LuaFunction("install")));
    let lua = |r: &Request| match r {
        Request::CallLua {
            function: LuaFn::Status,
            with_args: false,
        } => Answer::StatusReply(Ok(Status::Missing)),
        Request::CallLua {
            function: LuaFn::Install,
            with_args: false,
        } => Answer::UnitReply(Ok(())),
        other => panic!("unexpected {other:?}"),
    };

    assert!(matches!(drive(lua, |a| debug.status_step(a)).unwrap(), Status::Missing));
    drive(lua, |a| debug.install_step(a)).unwrap();
}

#[test]
fn test_debug_propagates_lua_failures() {
    let debug = frork::assertions::Debug::new(Some(LuaFunction("status")), Some(LuaFunction("install")));
    let lua = |r: &Request| match r {
        Request::CallLua {
            function: LuaFn::Status,
            ..
        } => Answer::StatusReply(Err(lua_error("status boom"))),
        _ => Answer::UnitReply(Err(lua_error("install boom"))),
    };

    let error = drive(lua, |a| debug.status_step(a)).unwrap_err();
    assert!(text(error).contains("Debug status function failed"));

    let error = drive(lua, |a| debug.install_step(a)).unwrap_err();
    assert!(text(error).contains("Debug install function failed"));
}

// --- Lua assertion types -----------------------------------------------------

fn assertion_type(
    display: bool,
    status: bool,
    install: bool,
    upgrade: bool,
) -> Result<LuaAssertionType<LuaFunction>, String> {
    let required = |present: bool, name: &'static str| {
        if present {
            Ok(LuaFunction(name))
        } else {
            Err(format!("error converting Lua nil to function ({name})"))
        }
    };
    LuaAssertionType::from_parts(
        display.then_some(LuaFunction("display")),
        required(status, "status"),
        required(install, "install"),
        upgrade.then_some(LuaFunction("upgrade")),
    )
}

/// Answers Lua calls the way a registered type with these functions would,
/// recording which function ran with which argument.
struct FakeLua {
    arg: &'static str,
    status: Result<Status, &'static str>,
    display: Result<String, &'static str>,
    fail_install: bool,
    fail_upgrade: bool,
    ran: RefCell<Vec<String>>,
}

impl FakeLua {
    fn new(arg: &'static str) -> Self {
        FakeLua {
            arg,
            status: Ok(Status::Okay),
            display: Err("no display"),
            fail_install: false,
            fail_upgrade: false,
            ran: RefCell::new(Vec::new()),
        }
    }

    fn answer(&self, request: &Request) -> Answer {
        match request {
            Request::CallLua { function, with_args } => {
                assert!(*with_args);
                match function {
                    LuaFn::Status => Answer::StatusReply(
                        self.status.clone().map_err(lua_error),
                    ),
                    LuaFn::Display => Answer::TextReply(self.display.clone().map_err(lua_error)),
                    LuaFn::Install => {
                        self.ran.borrow_mut().push(format!("install:{}", self.arg));
                        Answer::UnitReply(if self.fail_install {
                            Err(lua_error("install boom"))
                        } else {
                            Ok(())
                        })
                    }
                    LuaFn::Upgrade => {
                        self.ran.borrow_mut().push(format!("upgrade:{}", self.arg));
                        Answer::UnitReply(if self.fail_upgrade {
                            Err(lua_error("upgrade boom"))
                        } else {
                            Ok(())
                        })
                    }
                }
            }
            Request::DescribeArgs => Answer::ArgTexts(
                self.arg
                    .split_whitespace()
                    .map(|a| Some(a.to_string()))
                    .collect(),
            ),
            other => panic!("unexpected {other:?}"),
        }
    }
}

#[test]
fn test_lua_assertion_type_requires_status_and_install() {
    let assertion_type = assertion_type(false, true, true, false).unwrap();
    assert!(assertion_type.display_fn.is_none());
    assert!(assertion_type.upgrade_fn.is_none());

    assert!(self::assertion_type(false, false, true, false).is_err());
}

#[test]
fn test_lua_assertion_runs_status_and_install() {
    let t = || assertion_type(false, true, true, false).unwrap();

    let lua = FakeLua::new("yes");
    let assertion = LuaAssertion::new("custom", "yes", t());
    assert!(matches!(
        drive(|r| lua.answer(r), |a| assertion.status_step(a)).unwrap(),
        Status::Okay
    ));
    drive(|r| lua.answer(r), |a| assertion.install_step(a)).unwrap();

    let mut lua = FakeLua::new("no");
    lua.status = Ok(Status::Missing);
    let assertion = LuaAssertion::new("custom", "no", t());
    assert!(matches!(
        drive(|r| lua.answer(r), |a| assertion.status_step(a)).unwrap(),
        Status::Missing
    ));
}

#[test]
fn test_lua_assertion_propagates_failures() {
    let mut lua = FakeLua::new("");
    lua.status = Err("status boom");
    lua.fail_install = true;
    let assertion = LuaAssertion::new("custom", (), assertion_type(false, true, true, false).unwrap());
    assert!(drive(|r| lua.answer(r), |a| assertion.status_step(a)).is_err());
    assert!(drive(|r| lua.answer(r), |a| assertion.install_step(a)).is_err());
}

#[test]
fn test_lua_assertion_upgrade_fn_wins_over_install() {
    let lua = FakeLua::new("arg");
    let assertion = LuaAssertion::new("custom", "arg", assertion_type(false, true, true, true).unwrap());
    drive(|r| lua.answer(r), |a| assertion.upgrade_step(a)).unwrap();

    assert_eq!(lua.ran.borrow().as_slice(), ["upgrade:arg"]);
}

#[test]
fn test_lua_assertion_upgrade_falls_back_to_install() {
    let lua = FakeLua::new("");
    let assertion = LuaAssertion::new("custom", (), assertion_type(false, true, true, false).unwrap());
    drive(|r| lua.answer(r), |a| assertion.upgrade_step(a)).unwrap();

    assert_eq!(lua.ran.borrow().as_slice(), ["install:"]);
}

#[test]
fn test_lua_assertion_upgrade_propagates_failures() {
    let mut lua = FakeLua::new("");
    lua.fail_upgrade = true;
    let assertion = LuaAssertion::new("custom", (), assertion_type(false, true, true, true).unwrap());
    assert!(drive(|r| lua.answer(r), |a| assertion.upgrade_step(a)).is_err());
}

#[test]
fn test_lua_assertion_display_without_display_fn() {
    let lua = FakeLua::new("a b");
    let assertion = LuaAssertion::new("custom", "a b", assertion_type(false, true, true, false).unwrap());
    assert_eq!(
        drive(|r| lua.answer(r), |a| assertion.display_step(a)).unwrap(),
        "custom a b"
    );
}

#[test]
fn test_lua_assertion_display_fn_replaces_default() {
    let mut lua = FakeLua::new("arg");
    lua.display = Ok("rendered arg".to_string());
    let assertion = LuaAssertion::new("custom", "arg", assertion_type(true, true, true, false).unwrap());
    assert_eq!(
        drive(|r| lua.answer(r), |a| assertion.display_step(a)).unwrap(),
        "rendered arg"
    );
}

#[test]
fn test_lua_assertion_display_fn_failure_falls_back() {
    let mut lua = FakeLua::new("arg");
    lua.display = Err("display boom");
    let assertion = LuaAssertion::new("custom", "arg", assertion_type(true, true, true, false).unwrap());
    assert_eq!(
        drive(|r| lua.answer(r), |a| assertion.display_step(a)).unwrap(),
        "custom arg"
    );
}

#[test]
fn lua_assertion_errors_become_frork_errors() {
    let assertion = LuaAssertion::new("custom", (), assertion_type(false, true, true, false).unwrap());
    let reply = Answer::StatusReply(Err(LuaErrorInfo {
        display: "callback error: Missing assertion type".to_string(),
        callback: Some(CallbackCause {
            frork: Some(FrorkError::MissingAssertionType),
            display: "Missing assertion type".to_string(),
        }),
    }));
    let Step::Finish(Err(Failure::Frork(e))) = assertion.status_step(&vec![reply]) else {
        panic!("expected a frork error");
    };
    assert_eq!(e, FrorkError::MissingAssertionType);
}

#[test]
fn default_display_marks_arguments_without_text() {
    assert_eq!(
        frork::assertions::default_display_of("custom", &vec![Some("a".to_string()), None]),
        "custom a ?"
    );
    assert_eq!(frork::assertions::default_display_of("custom", &vec![]), "custom ");
}
