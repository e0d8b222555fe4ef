//! What one compilation request consists of, and how it is projected onto the
//! toolchain's command line.
use vstd::prelude::*;

verus! {

/// The source text of one compilation unit.
pub type Source = String;

/// An optimisation level, ordered from none to the most aggressive.
#[derive(Clone, Copy, Debug, PartialEq, Eq, Structural)]
pub enum Profile {
    O0,
    O1,
    O2,
    O3,
}

/// Whether debug information is emitted.
#[derive(Clone, Copy, Debug, PartialEq, Eq, Structural)]
pub enum Debugging {
    Enabled,
    Disabled,
}

/// An optional name under which the compilation unit is known.
#[derive(Clone, Debug)]
pub enum Filename {
    Unspecified,
    Configured(String),
}

/// A fully specified compilation request. Values are made only by
/// `ConfigurationBuilder::build`, once every required field was supplied.
#[derive(Clone, Debug)]
pub struct Configuration {
    pub(crate) profile: Profile,
    pub(crate) debugging: Debugging,
    pub(crate) source: Source,
    pub(crate) filename: Filename,
}

/// The mathematical content of a `Configuration`.
pub struct ConfigurationModel {
    pub profile: Profile,
    pub debugging: Debugging,
    pub source: Seq<char>,
    pub filename: Option<Seq<char>>,
}

impl View for Filename {
    type V = Option<Seq<char>>;

    open spec fn view(&self) -> Option<Seq<char>> {
        match self {
            Filename::Unspecified => None,
            Filename::Configured(name) => Some(name@),
        }
    }
}

impl View for Configuration {
    type V = ConfigurationModel;

    closed spec fn view(&self) -> ConfigurationModel {
        ConfigurationModel {
            profile: self.profile,
            debugging: self.debugging,
            source: self.source@,
            filename: self.filename@,
        }
    }
}

impl Configuration {
    /// The configuration holding exactly the given values.
    pub(crate) fn new(profile: Profile, debugging: Debugging, source: Source, filename: Filename) -> (r:
        Configuration)
        ensures
            r@ == (ConfigurationModel {
                profile,
                debugging,
                source: source@,
                filename: filename@,
            }),
    {
        Configuration { profile, debugging, source, filename }
    }

    /// The requested optimisation level.
    #[must_use]
    pub fn profile(&self) -> (r: &Profile)
        ensures
            *r == self@.profile,
    {
        &self.profile
    }

    /// Whether debug information is requested.
    #[must_use]
    pub fn debugging(&self) -> (r: &Debugging)
        ensures
            *r == self@.debugging,
    {
        &self.debugging
    }

    /// The source text to compile.
    #[must_use]
    pub fn source(&self) -> (r: &str)
        ensures
            r@ == self@.source,
    {
        self.source.as_str()
    }
}

/// The executable that every invocation names.
pub const TOOLCHAIN: &'static str = "emcc";

/// The flag for an optimisation level.
pub open spec fn profile_flag(p: Profile) -> Seq<char> {
    match p {
        Profile::O0 => "-O0"@,
        Profile::O1 => "-O1"@,
        Profile::O2 => "-O2"@,
        Profile::O3 => "-O3"@,
    }
}

/// The flags for a debugging setting: `-g` when enabled, nothing otherwise.
pub open spec fn debug_flags(d: Debugging) -> Seq<Seq<char>> {
    match d {
        Debugging::Enabled => seq!["-g"@],
        Debugging::Disabled => seq![],
    }
}

/// The toolchain's arguments for a request that reads `input` and writes
/// `output`: the input, no program entry point, the optimisation flag, the
/// debug flag if any, no JavaScript glue code, and the output after `-o`.
pub open spec fn command_args(c: ConfigurationModel, input: Seq<char>, output: Seq<char>) -> Seq<
    Seq<char>,
> {
    seq![input, "--no-entry"@, profile_flag(c.profile)] + debug_flags(c.debugging) + seq![
        "-s"@,
        "STANDALONE_WASM=1"@,
        "-o"@,
        output,
    ]
}

/// A program and the arguments it is to be run with.
#[derive(Clone, Debug)]
pub struct Invocation {
    pub program: String,
    pub args: Vec<String>,
}

/// The mathematical content of an `Invocation`.
pub struct InvocationModel {
    pub program: Seq<char>,
    pub args: Seq<Seq<char>>,
}

impl View for Invocation {
    type V = InvocationModel;

    open spec fn view(&self) -> InvocationModel {
        InvocationModel { program: self.program@, args: self.args@.map_values(|a: String| a@) }
    }
}

fn push_arg(args: &mut Vec<String>, arg: &str)
    ensures
        final(args)@.map_values(|a: String| a@) == old(args)@.map_values(|a: String| a@).push(
            arg@,
        ),
{
    args.push(arg.to_owned());
    assert(final(args)@.map_values(|a: String| a@) =~= old(args)@.map_values(|a: String| a@).push(
        arg@,
    ));
}

impl Profile {
    /// The toolchain flag that requests this optimisation level.
    pub fn flag(&self) -> (r: &'static str)
        ensures
            r@ == profile_flag(*self),
    {
        match self {
            Profile::O0 => "-O0",
            Profile::O1 => "-O1",
            Profile::O2 => "-O2",
            Profile::O3 => "-O3",
        }
    }
}

impl Configuration {
    /// The invocation of the toolchain that compiles this request from the
    /// file at `input_path` into the file at `output_path`.
    pub fn as_command(&self, input_path: &str, output_path: &str) -> (r: Invocation)
        ensures
            r@.program == TOOLCHAIN@,
            r@.args == command_args(self@, input_path@, output_path@),
    {
        let mut args: Vec<String> = Vec::new();
        push_arg(&mut args, input_path);
        push_arg(&mut args, "--no-entry");
        push_arg(&mut args, self.profile.flag());
        match self.debugging {
            Debugging::Enabled => push_arg(&mut args, "-g"),
            Debugging::Disabled => {},
        }
        push_arg(&mut args, "-s");
        push_arg(&mut args, "STANDALONE_WASM=1");
        push_arg(&mut args, "-o");
        push_arg(&mut args, output_path);
        let r = Invocation { program: TOOLCHAIN.to_owned(), args };
        assert(r@.args =~= command_args(self@, input_path@, output_path@));
        r
    }
}

} // verus!
