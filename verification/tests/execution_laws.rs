use codexcli::engine::{Engine, Phase};
use codexcli::outcome::FailureClass;
use codexcli::protocol::{Action, Event, Platform};
use std::collections::BTreeSet;

/// A small generator of numbers, the same on every run.
struct Dice(u64);

impl Dice {
    fn roll(&mut self, sides: u64) -> u64 {
        self.0 = self.0.wrapping_mul(6364136223846793005).wrapping_add(1442695040888963407);
        (self.0 >> 33) % sides
    }
}

/// What the actions have done to an imagined host.
struct Host {
    markers: BTreeSet<String>,
    files: BTreeSet<String>,
    depth: i64,
    refused: bool,
    creations: u32,
    installs: u32,
    runs: u32,
    written: Vec<(String, Vec<u8>)>,
}

const DIAGNOSTICS: [&str; 6] = [
    "",
    "SyntaxError: invalid syntax",
    "ModuleNotFoundError: No module named 'requests'",
    "Error: Cannot find module 'express'",
    "EOFError: EOF when reading a line",
    "ModuleNotFoundError: no name here",
];

fn any_event(dice: &mut Dice) -> Event {
    match dice.roll(10) {
        0 => Event::Present(true),
        1 => Event::Present(false),
        2 | 3 => Event::Completed,
        4 | 5 => Event::Exited {
            success: true,
            stdout: "out".to_string(),
            stderr: String::new(),
            status: "exit status: 0".to_string(),
        },
        6 | 7 | 8 => Event::Exited {
            success: false,
            stdout: String::new(),
            stderr: DIAGNOSTICS[dice.roll(6) as usize].to_string(),
            status: "exit status: 1".to_string(),
        },
        _ => Event::Failed("refused".to_string()),
    }
}

/// An answer of the kind that the action asks for.
fn fitting_event(action: &Action, host: &Host, dice: &mut Dice) -> Event {
    match action {
        Action::Probe(path) => Event::Present(host.markers.contains(path)),
        Action::Run(invocation) => {
            let launched = invocation.mode == codexcli::protocol::Mode::Background;
            match dice.roll(8) {
                0 => Event::Failed("not found".to_string()),
                1 | 2 | 3 if !launched => Event::Exited {
                    success: false,
                    stdout: String::new(),
                    stderr: DIAGNOSTICS[dice.roll(6) as usize].to_string(),
                    status: "exit status: 1".to_string(),
                },
                _ if launched => Event::Completed,
                _ => Event::Exited {
                    success: true,
                    stdout: "out".to_string(),
                    stderr: String::new(),
                    status: "exit status: 0".to_string(),
                },
            }
        }
        _ => {
            if dice.roll(10) == 0 {
                Event::Failed("refused".to_string())
            } else {
                Event::Completed
            }
        }
    }
}

fn apply(host: &mut Host, engine: &Engine, action: &Action, event: &Event) {
    let failed = matches!(event, Event::Failed(_));
    let ran = matches!(event, Event::Exited { .. });
    match action {
        Action::EnterDirectory(_) => {
            if *event == Event::Completed {
                host.depth += 1;
            }
        }
        Action::RestoreDirectory => {
            if failed {
                host.refused = true;
            } else {
                host.depth -= 1;
            }
        }
        Action::WriteFile { name, bytes } => {
            host.files.insert(name.clone());
            host.written.push((name.clone(), bytes.clone()));
        }
        Action::RemoveFile(name) => {
            if failed {
                host.refused = true;
            } else {
                host.files.remove(name);
            }
        }
        Action::Run(_) => match engine {
            Engine::Fragment(job, Phase::Compiling) => {
                let binary = if job.platform == Platform::Windows { "temp_code.exe" } else { "temp_code" };
                host.files.insert(binary.to_string());
            }
            Engine::Fragment(job, Phase::CreatingEnvironment { .. })
            | Engine::Fragment(job, Phase::InitializingManifest) => {
                if ran {
                    let marker = if job.family == codexcli::language::RuntimeFamily::Python {
                        "venv"
                    } else {
                        "package.json"
                    };
                    host.markers.insert(marker.to_string());
                    host.creations += 1;
                }
            }
            Engine::Fragment(_, Phase::Running) => host.runs += 1,
            Engine::Fragment(_, Phase::Remediating) => host.installs += 1,
            _ => {}
        },
        _ => {}
    }
}

const TAGS: [(&str, &str); 8] = [
    ("python", "py"),
    ("js", "js"),
    ("TypeScript", "ts"),
    ("rust", "rs"),
    ("sh", "sh"),
    ("html", "html"),
    ("cobol", ""),
    ("Py", "py"),
];

const CODES: [&str; 5] =
    ["print('```')\n", "", "start-server 81", "create-react-app", " npm start "];

const PLATFORMS: [Platform; 3] = [Platform::Windows, Platform::MacOs, Platform::Posix];

/// Runs one execution to its end and checks what holds of every
/// execution. Gives the host at the end.
fn walk(dice: &mut Dice, truthful: bool, markers: &[&str]) -> Host {
    let (tag, extension) = TAGS[dice.roll(8) as usize];
    let code = CODES[dice.roll(5) as usize];
    let platform = PLATFORMS[dice.roll(3) as usize];
    let workdir = if dice.roll(2) == 0 { Some("work") } else { None };
    let is_directive = code.trim() == "create-react-app"
        || code.trim() == "npm start"
        || code.trim().starts_with("start-server");
    let mut host = Host {
        markers: markers.iter().map(|m| m.to_string()).collect(),
        files: BTreeSet::new(),
        depth: 0,
        refused: false,
        creations: 0,
        installs: 0,
        runs: 0,
        written: Vec::new(),
    };
    let (mut engine, mut action) = Engine::start(code, tag, workdir, platform);
    let mut steps = 0;
    loop {
        if let Action::Finish(outcome) = &action {
            assert!(engine.is_finished());
            if let Err(failure) = outcome {
                assert!(!failure.is_recoverable(), "{:?}", failure);
                assert!(!matches!(failure, FailureClass::MissingDependency(_)));
                assert!(!matches!(failure, FailureClass::InteractiveInputRequired));
            }
            break;
        }
        assert!(!engine.is_finished());
        if is_directive {
            assert!(matches!(action, Action::Run(_)), "{:?}", action);
            assert!(!matches!(engine, Engine::Fragment(..)));
        }
        let event = if truthful { fitting_event(&action, &host, dice) } else { any_event(dice) };
        apply(&mut host, &engine, &action, &event);
        let (next_engine, next_action) = engine.advance(event);
        engine = next_engine;
        action = next_action;
        steps += 1;
        assert!(steps <= 51, "the execution does not end");
        assert!(host.installs <= 1);
        assert!(host.runs <= host.installs + 1);
    }
    for (name, bytes) in &host.written {
        assert_eq!(name, &format!("temp_code.{}", extension));
        assert_eq!(bytes.as_slice(), code.as_bytes());
    }
    if !host.refused {
        assert_eq!(host.depth, 0);
        if extension == "html" && !is_directive {
            assert!(host.files.iter().all(|f| f == "temp_code.html"), "{:?}", host.files);
        } else {
            assert!(host.files.is_empty(), "{:?} left by {:?} {:?}", host.files, tag, code);
        }
    }
    if is_directive || extension.is_empty() {
        assert!(host.written.is_empty());
        assert!(host.files.is_empty());
        assert_eq!(host.depth, 0);
        assert_eq!((host.creations, host.installs, host.runs), (0, 0, 0));
        if !is_directive {
            assert_eq!(steps, 0);
        }
    }
    host
}

#[test]
fn every_execution_cleans_up_whatever_the_host_answers() {
    let mut dice = Dice(1);
    for _ in 0..20000 {
        walk(&mut dice, false, &[]);
    }
}

#[test]
fn every_execution_cleans_up_when_the_host_answers_in_kind() {
    let mut dice = Dice(2);
    for _ in 0..20000 {
        walk(&mut dice, true, &["venv"]);
    }
}

#[test]
fn an_environment_is_created_at_most_once_and_never_again() {
    let mut dice = Dice(3);
    let mut created = 0;
    for _ in 0..5000 {
        let first = walk(&mut dice, true, &[]);
        assert!(first.creations <= 1);
        created += first.creations;
        let markers: Vec<&str> = first.markers.iter().map(|m| m.as_str()).collect();
        let second = walk(&mut dice, true, &markers);
        if markers.len() == 2 {
            assert_eq!(second.creations, 0);
        }
        assert!(second.creations <= 1);
    }
    assert!(created > 0);
    for _ in 0..5000 {
        let host = walk(&mut dice, true, &["venv", "package.json"]);
        assert_eq!(host.creations, 0);
    }
}
