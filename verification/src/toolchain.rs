//! The toolchain executables: which program is run for each step, with
//! which arguments, on each platform.

use crate::language::{file_extension, RuntimeFamily};
use crate::protocol::{strings, Invocation, InvocationView, Mode, Platform};
use crate::text::{decimal, push_decimal, string_of};
use vstd::prelude::*;

verus! {

/// The packaging tools that a fresh Python environment is given.
#[derive(Clone, Copy, Debug, PartialEq, Eq, Structural)]
pub enum BaselineTool {
    Pip,
    Setuptools,
    Wheel,
}

/// The packages that run a TypeScript source.
#[derive(Clone, Copy, Debug, PartialEq, Eq, Structural)]
pub enum RunnerPackage {
    TypeScript,
    TsNode,
}

impl BaselineTool {
    /// The name of the package.
    pub open spec fn package(self) -> Seq<char> {
        match self {
            BaselineTool::Pip => "pip"@,
            BaselineTool::Setuptools => "setuptools"@,
            BaselineTool::Wheel => "wheel"@,
        }
    }

    /// The tool that is upgraded after this one, if any.
    pub open spec fn following(self) -> Option<BaselineTool> {
        match self {
            BaselineTool::Pip => Some(BaselineTool::Setuptools),
            BaselineTool::Setuptools => Some(BaselineTool::Wheel),
            BaselineTool::Wheel => None,
        }
    }

    /// The name of the package.
    pub fn name(self) -> (out: &'static str)
        ensures
            out@ == self.package(),
    {
        match self {
            BaselineTool::Pip => "pip",
            BaselineTool::Setuptools => "setuptools",
            BaselineTool::Wheel => "wheel",
        }
    }

    /// The tool that is upgraded after this one, if any.
    pub fn next(self) -> (out: Option<BaselineTool>)
        ensures
            out == self.following(),
    {
        match self {
            BaselineTool::Pip => Some(BaselineTool::Setuptools),
            BaselineTool::Setuptools => Some(BaselineTool::Wheel),
            BaselineTool::Wheel => None,
        }
    }
}

impl RunnerPackage {
    /// The name of the package.
    pub open spec fn package(self) -> Seq<char> {
        match self {
            RunnerPackage::TypeScript => "typescript"@,
            RunnerPackage::TsNode => "ts-node"@,
        }
    }

    /// The name of the package.
    pub fn name(self) -> (out: &'static str)
        ensures
            out@ == self.package(),
    {
        match self {
            RunnerPackage::TypeScript => "typescript",
            RunnerPackage::TsNode => "ts-node",
        }
    }
}

/// The interpreter of the Python environment.
pub open spec fn environment_python(platform: Platform) -> Seq<char> {
    if platform == Platform::Windows {
        "venv\\Scripts\\python.exe"@
    } else {
        "venv/bin/python"@
    }
}

/// The path whose existence tells that the environment of `family` is
/// there.
pub open spec fn environment_marker(family: RuntimeFamily) -> Seq<char> {
    if family == RuntimeFamily::Python {
        "venv"@
    } else {
        "package.json"@
    }
}

/// The temporary file that holds the source of a fragment.
pub open spec fn source_file(family: RuntimeFamily) -> Seq<char> {
    "temp_code."@ + file_extension(family)
}

/// The file that the compiler writes.
pub open spec fn binary_file(platform: Platform) -> Seq<char> {
    if platform == Platform::Windows {
        "temp_code.exe"@
    } else {
        "temp_code"@
    }
}

/// The program name by which the compiled binary is run.
pub open spec fn binary_program(platform: Platform) -> Seq<char> {
    if platform == Platform::Windows {
        "temp_code.exe"@
    } else {
        "./temp_code"@
    }
}

/// The directory of a directive: the working directory where one is set.
pub open spec fn base_directory(workdir: Option<Seq<char>>) -> Seq<Seq<char>> {
    match workdir {
        Some(path) => seq![path],
        None => Seq::empty(),
    }
}

impl InvocationView {
    /// A process in the current directory.
    pub open spec fn new(program: Seq<char>, arguments: Seq<Seq<char>>, mode: Mode) -> Self {
        InvocationView { program, arguments, mode, directory: Seq::empty() }
    }

    /// Creates the Python environment with the system's interpreter.
    pub open spec fn create_environment() -> Self {
        Self::new("python"@, seq!["-m"@, "venv"@, "venv"@], Mode::Capture)
    }

    /// Installs the Python interpreter with the platform's package
    /// manager.
    pub open spec fn install_interpreter(platform: Platform) -> Self {
        if platform == Platform::Windows {
            Self::new("winget"@, seq!["install"@, "Python.Python"@], Mode::Capture)
        } else {
            Self::new("sudo"@, seq!["apt-get"@, "install"@, "python3"@], Mode::Capture)
        }
    }

    /// Upgrades a baseline tool in the Python environment.
    pub open spec fn upgrade_tool(platform: Platform, tool: BaselineTool) -> Self {
        Self::new(
            environment_python(platform),
            seq!["-m"@, "pip"@, "install"@, "--upgrade"@, tool.package()],
            Mode::Capture,
        )
    }

    /// Initializes the Node project manifest without asking.
    pub open spec fn initialize_manifest() -> Self {
        Self::new("npm"@, seq!["init"@, "-y"@], Mode::Capture)
    }

    /// Installs a package with the Node package manager.
    pub open spec fn install_node_package(name: Seq<char>) -> Self {
        Self::new("npm"@, seq!["install"@, name], Mode::Capture)
    }

    /// Installs a package in the Python environment.
    pub open spec fn install_python_package(platform: Platform, name: Seq<char>) -> Self {
        Self::new(
            environment_python(platform),
            seq!["-m"@, "pip"@, "install"@, name],
            Mode::Capture,
        )
    }

    /// Installs a package with the package manager of `family`.
    pub open spec fn install_dependency(
        platform: Platform,
        family: RuntimeFamily,
        name: Seq<char>,
    ) -> Self {
        if family == RuntimeFamily::Python {
            Self::install_python_package(platform, name)
        } else {
            Self::install_node_package(name)
        }
    }

    /// Compiles the source file to a binary.
    pub open spec fn compile() -> Self {
        Self::new("rustc"@, seq![source_file(RuntimeFamily::CompiledNative)], Mode::Capture)
    }

    /// Runs the source file of `family`; for a compiled language, the
    /// binary; for markup, the platform's opener.
    pub open spec fn run(platform: Platform, family: RuntimeFamily) -> Self {
        let file = source_file(family);
        match family {
            RuntimeFamily::Python => Self::new(
                environment_python(platform),
                seq![file],
                Mode::Capture,
            ),
            RuntimeFamily::Node => Self::new("node"@, seq![file], Mode::Foreground),
            RuntimeFamily::TypeScript => Self::new(
                "npx"@,
                seq!["ts-node"@, file],
                Mode::Foreground,
            ),
            RuntimeFamily::CompiledNative => Self::new(
                binary_program(platform),
                Seq::empty(),
                Mode::Foreground,
            ),
            RuntimeFamily::Shell => if platform == Platform::Windows {
                Self::new("wsl"@, seq!["bash"@, "-c"@, "bash "@ + file], Mode::Foreground)
            } else {
                Self::new("bash"@, seq![file], Mode::Foreground)
            },
            RuntimeFamily::Markup => match platform {
                Platform::Windows => Self::new(
                    "cmd"@,
                    seq!["/C"@, "start"@, file],
                    Mode::Background,
                ),
                Platform::MacOs => Self::new("open"@, seq![file], Mode::Background),
                Platform::Posix => Self::new("xdg-open"@, seq![file], Mode::Background),
            },
        }
    }

    /// Runs the Python source with the caller's streams.
    pub open spec fn run_interactive(platform: Platform) -> Self {
        Self::new(
            environment_python(platform),
            seq![source_file(RuntimeFamily::Python)],
            Mode::Foreground,
        )
    }

    /// Scaffolds the web application.
    pub open spec fn scaffold(workdir: Option<Seq<char>>) -> Self {
        InvocationView {
            program: "npx"@,
            arguments: seq!["create-react-app"@, "react-app"@],
            mode: Mode::Foreground,
            directory: base_directory(workdir),
        }
    }

    /// Starts the development server in the directory of the scaffolded
    /// application.
    pub open spec fn dev_server(workdir: Option<Seq<char>>) -> Self {
        InvocationView {
            program: "npm"@,
            arguments: seq!["start"@],
            mode: Mode::Background,
            directory: base_directory(workdir).push("react-app"@),
        }
    }

    /// Serves the files of the directory on `port`.
    pub open spec fn static_server(port: u16, workdir: Option<Seq<char>>) -> Self {
        InvocationView {
            program: "python"@,
            arguments: seq!["-m"@, "http.server"@, decimal(port as nat)],
            mode: Mode::Background,
            directory: base_directory(workdir),
        }
    }
}

/// The text of an optional string slice.
pub open spec fn optional_text(text: Option<&str>) -> Option<Seq<char>> {
    match text {
        Some(t) => Some(t@),
        None => None,
    }
}

pub(crate) fn push_word(list: &mut Vec<String>, word: &str)
    ensures
        strings(final(list)@) == strings(old(list)@).push(word@),
{
    list.push(String::from_str(word));
    assert(strings(list@) == strings(old(list)@).push(word@));
}

pub(crate) fn push_text(list: &mut Vec<String>, word: String)
    ensures
        strings(final(list)@) == strings(old(list)@).push(word@),
{
    let ghost w = word@;
    list.push(word);
    assert(strings(list@) == strings(old(list)@).push(w));
}

pub(crate) fn no_words() -> (out: Vec<String>)
    ensures
        strings(out@) == Seq::<Seq<char>>::empty(),
{
    let out: Vec<String> = Vec::new();
    assert(strings(out@) == Seq::<Seq<char>>::empty());
    out
}

pub(crate) fn python_of(platform: Platform) -> (out: &'static str)
    ensures
        out@ == environment_python(platform),
{
    match platform {
        Platform::Windows => "venv\\Scripts\\python.exe",
        _ => "venv/bin/python",
    }
}

pub(crate) fn marker_of(family: RuntimeFamily) -> (out: String)
    ensures
        out@ == environment_marker(family),
{
    match family {
        RuntimeFamily::Python => String::from_str("venv"),
        _ => String::from_str("package.json"),
    }
}

pub(crate) fn source_file_of(family: RuntimeFamily) -> (out: String)
    ensures
        out@ == source_file(family),
{
    let extension = match family {
        RuntimeFamily::Python => "py",
        RuntimeFamily::Node => "js",
        RuntimeFamily::TypeScript => "ts",
        RuntimeFamily::CompiledNative => "rs",
        RuntimeFamily::Shell => "sh",
        RuntimeFamily::Markup => "html",
    };
    String::from_str("temp_code.").concat(extension)
}

pub(crate) fn binary_file_of(platform: Platform) -> (out: String)
    ensures
        out@ == binary_file(platform),
{
    match platform {
        Platform::Windows => String::from_str("temp_code.exe"),
        _ => String::from_str("temp_code"),
    }
}

pub(crate) fn base_directory_of(workdir: Option<&str>) -> (out: Vec<String>)
    ensures
        strings(out@) == base_directory(optional_text(workdir)),
{
    let mut out = no_words();
    match workdir {
        Some(path) => {
            push_word(&mut out, path);
        },
        None => {},
    }
    out
}

impl Invocation {
    /// A process in the current directory.
    pub fn new(program: &str, arguments: Vec<String>, mode: Mode) -> (out: Invocation)
        ensures
            out@ == InvocationView::new(program@, strings(arguments@), mode),
    {
        Invocation { program: String::from_str(program), arguments, mode, directory: no_words() }
    }

    /// Creates the Python environment with the system's interpreter.
    pub fn create_environment() -> (out: Invocation)
        ensures
            out@ == InvocationView::create_environment(),
    {
        let mut arguments = no_words();
        push_word(&mut arguments, "-m");
        push_word(&mut arguments, "venv");
        push_word(&mut arguments, "venv");
        assert(strings(arguments@) == seq!["-m"@, "venv"@, "venv"@]);
        Invocation::new("python", arguments, Mode::Capture)
    }

    /// Installs the Python interpreter with the platform's package
    /// manager.
    pub fn install_interpreter(platform: Platform) -> (out: Invocation)
        ensures
            out@ == InvocationView::install_interpreter(platform),
    {
        let mut arguments = no_words();
        match platform {
            Platform::Windows => {
                push_word(&mut arguments, "install");
                push_word(&mut arguments, "Python.Python");
                assert(strings(arguments@) == seq!["install"@, "Python.Python"@]);
                Invocation::new("winget", arguments, Mode::Capture)
            },
            _ => {
                push_word(&mut arguments, "apt-get");
                push_word(&mut arguments, "install");
                push_word(&mut arguments, "python3");
                assert(strings(arguments@) == seq!["apt-get"@, "install"@, "python3"@]);
                Invocation::new("sudo", arguments, Mode::Capture)
            },
        }
    }

    /// Upgrades a baseline tool in the Python environment.
    pub fn upgrade_tool(platform: Platform, tool: BaselineTool) -> (out: Invocation)
        ensures
            out@ == InvocationView::upgrade_tool(platform, tool),
    {
        let mut arguments = no_words();
        push_word(&mut arguments, "-m");
        push_word(&mut arguments, "pip");
        push_word(&mut arguments, "install");
        push_word(&mut arguments, "--upgrade");
        push_word(&mut arguments, tool.name());
        assert(strings(arguments@) == seq![
            "-m"@,
            "pip"@,
            "install"@,
            "--upgrade"@,
            tool.package(),
        ]);
        Invocation::new(python_of(platform), arguments, Mode::Capture)
    }

    /// Initializes the Node project manifest without asking.
    pub fn initialize_manifest() -> (out: Invocation)
        ensures
            out@ == InvocationView::initialize_manifest(),
    {
        let mut arguments = no_words();
        push_word(&mut arguments, "init");
        push_word(&mut arguments, "-y");
        assert(strings(arguments@) == seq!["init"@, "-y"@]);
        Invocation::new("npm", arguments, Mode::Capture)
    }

    /// Installs a package with the Node package manager.
    pub fn install_node_package(name: &str) -> (out: Invocation)
        ensures
            out@ == InvocationView::install_node_package(name@),
    {
        let mut arguments = no_words();
        push_word(&mut arguments, "install");
        push_word(&mut arguments, name);
        assert(strings(arguments@) == seq!["install"@, name@]);
        Invocation::new("npm", arguments, Mode::Capture)
    }

    /// Installs a package in the Python environment.
    pub fn install_python_package(platform: Platform, name: &str) -> (out: Invocation)
        ensures
            out@ == InvocationView::install_python_package(platform, name@),
    {
        let mut arguments = no_words();
        push_word(&mut arguments, "-m");
        push_word(&mut arguments, "pip");
        push_word(&mut arguments, "install");
        push_word(&mut arguments, name);
        assert(strings(arguments@) == seq!["-m"@, "pip"@, "install"@, name@]);
        Invocation::new(python_of(platform), arguments, Mode::Capture)
    }

    /// Installs a package with the package manager of `family`.
    pub fn install_dependency(platform: Platform, family: RuntimeFamily, name: &str) -> (out:
        Invocation)
        ensures
            out@ == InvocationView::install_dependency(platform, family, name@),
    {
        match family {
            RuntimeFamily::Python => Invocation::install_python_package(platform, name),
            _ => Invocation::install_node_package(name),
        }
    }

    /// Compiles the source file to a binary.
    pub fn compile() -> (out: Invocation)
        ensures
            out@ == InvocationView::compile(),
    {
        let mut arguments = no_words();
        push_text(&mut arguments, source_file_of(RuntimeFamily::CompiledNative));
        Invocation::new("rustc", arguments, Mode::Capture)
    }

    /// Runs the source file of `family`; for a compiled language, the
    /// binary; for markup, the platform's opener.
    pub fn run(platform: Platform, family: RuntimeFamily) -> (out: Invocation)
        ensures
            out@ == InvocationView::run(platform, family),
    {
        let file = source_file_of(family);
        let ghost f = file@;
        let mut arguments = no_words();
        match family {
            RuntimeFamily::Python => {
                push_text(&mut arguments, file);
                assert(strings(arguments@) == seq![f]);
                Invocation::new(python_of(platform), arguments, Mode::Capture)
            },
            RuntimeFamily::Node => {
                push_text(&mut arguments, file);
                assert(strings(arguments@) == seq![f]);
                Invocation::new("node", arguments, Mode::Foreground)
            },
            RuntimeFamily::TypeScript => {
                push_word(&mut arguments, "ts-node");
                push_text(&mut arguments, file);
                assert(strings(arguments@) == seq!["ts-node"@, f]);
                Invocation::new("npx", arguments, Mode::Foreground)
            },
            RuntimeFamily::CompiledNative => {
                match platform {
                    Platform::Windows => Invocation::new(
                        "temp_code.exe",
                        arguments,
                        Mode::Foreground,
                    ),
                    _ => Invocation::new("./temp_code", arguments, Mode::Foreground),
                }
            },
            RuntimeFamily::Shell => {
                match platform {
                    Platform::Windows => {
                        push_word(&mut arguments, "bash");
                        push_word(&mut arguments, "-c");
                        push_text(&mut arguments, String::from_str("bash ").concat(file.as_str()));
                        assert(strings(arguments@) == seq!["bash"@, "-c"@, "bash "@ + f]);
                        Invocation::new("wsl", arguments, Mode::Foreground)
                    },
                    _ => {
                        push_text(&mut arguments, file);
                        assert(strings(arguments@) == seq![f]);
                        Invocation::new("bash", arguments, Mode::Foreground)
                    },
                }
            },
            RuntimeFamily::Markup => {
                match platform {
                    Platform::Windows => {
                        push_word(&mut arguments, "/C");
                        push_word(&mut arguments, "start");
                        push_text(&mut arguments, file);
                        assert(strings(arguments@) == seq!["/C"@, "start"@, f]);
                        Invocation::new("cmd", arguments, Mode::Background)
                    },
                    Platform::MacOs => {
                        push_text(&mut arguments, file);
                        assert(strings(arguments@) == seq![f]);
                        Invocation::new("open", arguments, Mode::Background)
                    },
                    Platform::Posix => {
                        push_text(&mut arguments, file);
                        assert(strings(arguments@) == seq![f]);
                        Invocation::new("xdg-open", arguments, Mode::Background)
                    },
                }
            },
        }
    }

    /// Runs the Python source with the caller's streams.
    pub fn run_interactive(platform: Platform) -> (out: Invocation)
        ensures
            out@ == InvocationView::run_interactive(platform),
    {
        let mut arguments = no_words();
        push_text(&mut arguments, source_file_of(RuntimeFamily::Python));
        Invocation::new(python_of(platform), arguments, Mode::Foreground)
    }

    /// Scaffolds the web application.
    pub fn scaffold(workdir: Option<&str>) -> (out: Invocation)
        ensures
            out@ == InvocationView::scaffold(optional_text(workdir)),
    {
        let mut arguments = no_words();
        push_word(&mut arguments, "create-react-app");
        push_word(&mut arguments, "react-app");
        assert(strings(arguments@) == seq!["create-react-app"@, "react-app"@]);
        Invocation {
            program: String::from_str("npx"),
            arguments,
            mode: Mode::Foreground,
            directory: base_directory_of(workdir),
        }
    }

    /// Starts the development server in the directory of the scaffolded
    /// application.
    pub fn dev_server(workdir: Option<&str>) -> (out: Invocation)
        ensures
            out@ == InvocationView::dev_server(optional_text(workdir)),
    {
        let mut arguments = no_words();
        push_word(&mut arguments, "start");
        let mut directory = base_directory_of(workdir);
        push_word(&mut directory, "react-app");
        Invocation {
            program: String::from_str("npm"),
            arguments,
            mode: Mode::Background,
            directory,
        }
    }

    /// Serves the files of the directory on `port`.
    pub fn static_server(port: u16, workdir: Option<&str>) -> (out: Invocation)
        ensures
            out@ == InvocationView::static_server(port, optional_text(workdir)),
    {
        let mut digits: Vec<char> = Vec::new();
        push_decimal(&mut digits, port);
        assert(digits@ == decimal(port as nat));
        let mut arguments = no_words();
        push_word(&mut arguments, "-m");
        push_word(&mut arguments, "http.server");
        push_text(&mut arguments, string_of(digits.as_slice()));
        assert(strings(arguments@) == seq!["-m"@, "http.server"@, decimal(port as nat)]);
        Invocation {
            program: String::from_str("python"),
            arguments,
            mode: Mode::Background,
            directory: base_directory_of(workdir),
        }
    }
}

} // verus!
