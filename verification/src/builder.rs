use vstd::prelude::*;
use vstd::string::StringExecFns;
use vstd::utf8::encode_utf8;

verus! {

/// An immutable snapshot of one request: the program to run, the instruction
/// text, the input payload sources, and the flags that shape the invocation.
///
/// Built by the fluent methods below and consumed by [`Gemini::build_command`]
/// and by the shell that runs the process.
#[derive(Debug)]
pub struct Gemini {
    /// Path of the external binary; defaults to `"gemini"` on the search path.
    pub bin_path: String,
    /// The primary instruction text, passed as the last positional argument.
    pub prompt: String,
    /// Optional inline context, fed first over the subprocess's standard input.
    pub input_data: Option<String>,
    /// Paths of files whose contents follow the inline context, in this order.
    pub input_files: Vec<String>,
    /// Optional model identifier.
    pub model: Option<String>,
    /// Workspace directories, joined by commas into one flag value.
    pub include_dirs: Vec<String>,
    /// Auto-approve side-effecting actions.
    pub yolo: bool,
    /// Ask the external program for verbose diagnostics.
    pub debug: bool,
}

/// The executable invocation descriptor derived from a request: a program
/// path and an ordered argument vector. A plain value; no live OS resource.
#[derive(Debug)]
pub struct Invocation {
    /// The program to spawn.
    pub program: String,
    /// The arguments, in the exact order they are to be handed to the OS.
    pub args: Vec<String>,
}

/// The model-selection arguments: `--model <name>` when a model is chosen.
pub open spec fn spec_model_args(g: Gemini) -> Seq<Seq<char>> {
    match g.model {
        Some(m) => seq!["--model"@, m@],
        None => seq![],
    }
}

/// The boolean flags, auto-approve before diagnostics.
pub open spec fn spec_flag_args(g: Gemini) -> Seq<Seq<char>> {
    (if g.yolo {
        seq!["--yolo"@]
    } else {
        seq![]
    }) + (if g.debug {
        seq!["--debug"@]
    } else {
        seq![]
    })
}

/// The first `n` items joined with a comma between each two.
pub open spec fn spec_join_upto(items: Seq<Seq<char>>, n: int) -> Seq<char>
    decreases n,
{
    if n <= 0 {
        Seq::empty()
    } else if n == 1 {
        items[0]
    } else {
        spec_join_upto(items, n - 1) + ","@ + items[n - 1]
    }
}

/// All items joined with a comma between each two.
pub open spec fn spec_join_comma(items: Seq<Seq<char>>) -> Seq<char> {
    spec_join_upto(items, items.len() as int)
}

/// The workspace arguments: the directories flag with the comma-joined list,
/// only when at least one directory was given.
pub open spec fn spec_dir_args(g: Gemini) -> Seq<Seq<char>> {
    if g.include_dirs@.len() > 0 {
        seq!["--include-directories"@, spec_join_comma(g.include_dirs.deep_view())]
    } else {
        seq![]
    }
}

/// The full argument vector for a request: the output-format flag first, then
/// the optional model, auto-approve, diagnostics and workspace flags, and the
/// instruction text as the last positional argument.
pub open spec fn spec_args(g: Gemini, format: Seq<char>) -> Seq<Seq<char>> {
    seq!["--output-format"@, format] + spec_model_args(g) + spec_flag_args(g) + spec_dir_args(g)
        + seq![g.prompt@]
}

/// The argument vector is a function of the request snapshot and the format
/// alone; it always places the output-format flag first (with its value
/// second) and the instruction text last.
pub proof fn lemma_args_shape(g: Gemini, format: Seq<char>)
    ensures
        spec_args(g, format).len() >= 3,
        spec_args(g, format)[0] == "--output-format"@,
        spec_args(g, format)[1] == format,
        spec_args(g, format).last() == g.prompt@,
{
}

fn join_comma(items: &Vec<String>) -> (r: String)
    ensures
        r@ == spec_join_comma(items.deep_view()),
{
    let mut out = String::new();
    let mut i: usize = 0;
    while i < items.len()
        invariant
            i <= items.len(),
            out@ == spec_join_upto(items.deep_view(), i as int),
        decreases items.len() - i,
    {
        if i > 0 {
            out.append(",");
        }
        out.append(items[i].as_str());
        i = i + 1;
    }
    out
}

impl Gemini {
    /// Start a new request with the given instruction text. Every other field
    /// begins at its default: no context, no files, no model, no workspace
    /// directories, both flags off, and the binary taken from the search path.
    pub fn new(prompt: &str) -> (r: Self)
        ensures
            r.bin_path@ == "gemini"@,
            r.prompt@ == prompt@,
            r.input_data is None,
            r.input_files@.len() == 0,
            r.model is None,
            r.include_dirs@.len() == 0,
            !r.yolo,
            !r.debug,
    {
        Gemini {
            bin_path: "gemini".to_owned(),
            prompt: prompt.to_owned(),
            input_data: None,
            input_files: Vec::new(),
            model: None,
            include_dirs: Vec::new(),
            yolo: false,
            debug: false,
        }
    }

    /// Set the path of the external binary.
    pub fn bin_path(self, path: &str) -> (r: Self)
        ensures
            r.bin_path@ == path@,
            r.prompt == self.prompt,
            r.input_data == self.input_data,
            r.input_files == self.input_files,
            r.model == self.model,
            r.include_dirs == self.include_dirs,
            r.yolo == self.yolo,
            r.debug == self.debug,
    {
        Gemini { bin_path: path.to_owned(), ..self }
    }

    /// Select a model by name.
    pub fn model(self, model: &str) -> (r: Self)
        ensures
            r.model matches Some(m) && m@ == model@,
            r.bin_path == self.bin_path,
            r.prompt == self.prompt,
            r.input_data == self.input_data,
            r.input_files == self.input_files,
            r.include_dirs == self.include_dirs,
            r.yolo == self.yolo,
            r.debug == self.debug,
    {
        Gemini { model: Some(model.to_owned()), ..self }
    }

    /// Set inline text to be fed first over the subprocess's standard input.
    pub fn context(self, data: &str) -> (r: Self)
        ensures
            r.input_data matches Some(d) && d@ == data@,
            r.bin_path == self.bin_path,
            r.prompt == self.prompt,
            r.input_files == self.input_files,
            r.model == self.model,
            r.include_dirs == self.include_dirs,
            r.yolo == self.yolo,
            r.debug == self.debug,
    {
        Gemini { input_data: Some(data.to_owned()), ..self }
    }

    /// Append a file whose contents are fed over standard input, after the
    /// inline context and after every file added before it.
    pub fn file(self, path: &str) -> (r: Self)
        ensures
            r.input_files.deep_view() == self.input_files.deep_view().push(path@),
            r.bin_path == self.bin_path,
            r.prompt == self.prompt,
            r.input_data == self.input_data,
            r.model == self.model,
            r.include_dirs == self.include_dirs,
            r.yolo == self.yolo,
            r.debug == self.debug,
    {
        let ghost orig = self.input_files.deep_view();
        let mut files = self.input_files;
        files.push(path.to_owned());
        proof {
            assert(files.deep_view() =~= orig.push(path@));
        }
        Gemini { input_files: files, ..self }
    }

    /// Append a workspace directory to the comma-joined directories flag.
    pub fn include_dir(self, dir: &str) -> (r: Self)
        ensures
            r.include_dirs.deep_view() == self.include_dirs.deep_view().push(dir@),
            r.bin_path == self.bin_path,
            r.prompt == self.prompt,
            r.input_data == self.input_data,
            r.input_files == self.input_files,
            r.model == self.model,
            r.yolo == self.yolo,
            r.debug == self.debug,
    {
        let ghost orig = self.include_dirs.deep_view();
        let mut dirs = self.include_dirs;
        dirs.push(dir.to_owned());
        proof {
            assert(dirs.deep_view() =~= orig.push(dir@));
        }
        Gemini { include_dirs: dirs, ..self }
    }

    /// Turn on auto-approval of side-effecting actions.
    pub fn yolo(self) -> (r: Self)
        ensures
            r.yolo,
            r.bin_path == self.bin_path,
            r.prompt == self.prompt,
            r.input_data == self.input_data,
            r.input_files == self.input_files,
            r.model == self.model,
            r.include_dirs == self.include_dirs,
            r.debug == self.debug,
    {
        Gemini { yolo: true, ..self }
    }

    /// Turn on verbose diagnostics.
    pub fn debug(self) -> (r: Self)
        ensures
            r.debug,
            r.bin_path == self.bin_path,
            r.prompt == self.prompt,
            r.input_data == self.input_data,
            r.input_files == self.input_files,
            r.model == self.model,
            r.include_dirs == self.include_dirs,
            r.yolo == self.yolo,
    {
        Gemini { debug: true, ..self }
    }

    /// Assemble the invocation for the given output format: the request's
    /// binary, and exactly the argument vector of [`spec_args`].
    pub fn build_command(&self, format: &str) -> (r: Invocation)
        ensures
            r.program@ == self.bin_path@,
            r.args.deep_view() == spec_args(*self, format@),
    {
        let mut args: Vec<String> = Vec::new();
        args.push("--output-format".to_owned());
        args.push(format.to_owned());
        match &self.model {
            Some(m) => {
                args.push("--model".to_owned());
                args.push(m.clone());
            },
            None => {},
        }
        if self.yolo {
            args.push("--yolo".to_owned());
        }
        if self.debug {
            args.push("--debug".to_owned());
        }
        if self.include_dirs.len() > 0 {
            args.push("--include-directories".to_owned());
            args.push(join_comma(&self.include_dirs));
        }
        args.push(self.prompt.clone());
        proof {
            assert(args.deep_view() =~= spec_args(*self, format@));
        }
        Invocation { program: self.bin_path.clone(), args }
    }
}

/// The byte payload the feeder writes to the subprocess's standard input for
/// one request: the inline text (if any) followed by a newline, then the
/// first `n` file contents, each followed by a newline.
pub open spec fn spec_payload_upto(
    input: Option<String>,
    files: Seq<Seq<u8>>,
    n: int,
) -> Seq<u8>
    decreases n,
{
    if n <= 0 {
        match input {
            Some(t) => encode_utf8(t@) + seq![10u8],
            None => Seq::empty(),
        }
    } else {
        spec_payload_upto(input, files, n - 1) + files[n - 1] + seq![10u8]
    }
}

/// The complete standard-input payload of a request: inline text first, then
/// every file's contents in listed order, newline-separated.
pub open spec fn spec_payload(input: Option<String>, files: Seq<Seq<u8>>) -> Seq<u8> {
    spec_payload_upto(input, files, files.len() as int)
}

/// Lay out the bytes the feeder writes to the subprocess, in order: the
/// inline text (when present) and then each file's contents, each item
/// followed by one newline separator.
pub fn stdin_payload(input: &Option<String>, files: &Vec<Vec<u8>>) -> (r: Vec<u8>)
    ensures
        r@ == spec_payload(*input, files.deep_view()),
{
    let mut out: Vec<u8> = Vec::new();
    match input {
        Some(t) => {
            out.extend_from_slice(t.as_str().as_bytes());
            out.push(10u8);
        },
        None => {},
    }
    let mut i: usize = 0;
    while i < files.len()
        invariant
            i <= files.len(),
            out@ == spec_payload_upto(*input, files.deep_view(), i as int),
        decreases files.len() - i,
    {
        out.extend_from_slice(files[i].as_slice());
        out.push(10u8);
        i = i + 1;
    }
    out
}

} // verus!
