//! The contracts of the external tools: the arguments each is started with,
//! and what its exit means for the run.

use vstd::prelude::*;
use crate::text::{
    chars_of, concat2, concat3, join, joined, lines_of, push_line, push_text, signed_decimal,
    signed_decimal_string,
};

verus! {

/// The two encoding profiles of the image encoder.
#[derive(Clone, Copy, Debug, PartialEq, Eq, Structural)]
pub enum Profile {
    Master,
    User,
}

/// The arguments of the encoder for one image: source, destination, and the
/// fixed settings of the profile.
pub open spec fn grok_arguments(profile: Profile, input: Seq<char>, output: Seq<char>) -> Seq<
    Seq<char>,
> {
    match profile {
        Profile::Master => seq![
            "-i"@,
            input,
            "-o"@,
            output,
            "-t"@,
            "4096,4096"@,
            "-p"@,
            "RPCL"@,
            "-n"@,
            "6"@,
            "-c"@,
            "[256,256],[256,256],[128,128],[128,128],[128,128],[128,128]"@,
            "-b"@,
            "64,64"@,
            "-X"@,
            "-M"@,
            "1"@,
            "-S"@,
            "-E"@,
            "-u"@,
            "R"@,
        ],
        Profile::User => seq![
            "-i"@,
            input,
            "-o"@,
            output,
            "-r"@,
            "362,256,181,128,90,64,45,32,22,16,11,8"@,
            "-I"@,
            "-t"@,
            "1024,1024"@,
            "-p"@,
            "RPCL"@,
            "-n"@,
            "6"@,
            "-c"@,
            "[256,256],[256,256],[128,128],[128,128],[128,128],[128,128]"@,
            "-b"@,
            "64,64"@,
            "-X"@,
            "-M"@,
            "1"@,
            "-u"@,
            "R"@,
            "-H"@,
            "4"@,
        ],
    }
}

/// Builds the argument list of the encoder.
pub fn grok_args(profile: Profile, input: &str, output: &str) -> (args: Vec<String>)
    ensures
        lines_of(args@) == grok_arguments(profile, input@, output@),
{
    let mut args: Vec<String> = Vec::new();
    push_text(&mut args, "-i");
    push_text(&mut args, input);
    push_text(&mut args, "-o");
    push_text(&mut args, output);
    match profile {
        Profile::Master => {
            push_text(&mut args, "-t");
            push_text(&mut args, "4096,4096");
        },
        Profile::User => {
            push_text(&mut args, "-r");
            push_text(&mut args, "362,256,181,128,90,64,45,32,22,16,11,8");
            push_text(&mut args, "-I");
            push_text(&mut args, "-t");
            push_text(&mut args, "1024,1024");
        },
    }
    push_text(&mut args, "-p");
    push_text(&mut args, "RPCL");
    push_text(&mut args, "-n");
    push_text(&mut args, "6");
    push_text(&mut args, "-c");
    push_text(&mut args, "[256,256],[256,256],[128,128],[128,128],[128,128],[128,128]");
    push_text(&mut args, "-b");
    push_text(&mut args, "64,64");
    push_text(&mut args, "-X");
    push_text(&mut args, "-M");
    push_text(&mut args, "1");
    match profile {
        Profile::Master => {
            push_text(&mut args, "-S");
            push_text(&mut args, "-E");
            push_text(&mut args, "-u");
            push_text(&mut args, "R");
        },
        Profile::User => {
            push_text(&mut args, "-u");
            push_text(&mut args, "R");
            push_text(&mut args, "-H");
            push_text(&mut args, "4");
        },
    }
    args
}

/// The layout format generation the OCR engine is asked for: the leading
/// digit of the version where that is 2, 3 or 4, and 4 otherwise.
pub open spec fn layout_major(version: Seq<char>) -> Seq<char> {
    if version.len() > 0 && version[0] == '3' {
        "3"@
    } else if version.len() > 0 && version[0] == '2' {
        "2"@
    } else {
        "4"@
    }
}

/// Maps a layout format version to the generation the OCR engine knows.
pub fn alto_major(version: &str) -> (major: &'static str)
    ensures
        major@ == layout_major(version@),
{
    let chars = chars_of(version);
    if chars.len() > 0 && chars[0] == '3' {
        "3"
    } else if chars.len() > 0 && chars[0] == '2' {
        "2"
    } else {
        "4"
    }
}

/// What is known of the OCR engine's language data.
#[derive(Clone, Debug, PartialEq, Eq)]
pub enum Tessdata {
    /// The operator named a directory; `prefix` is what the engine's data
    /// prefix is set to, `data_dir` the directory handed to it.
    Given { prefix: String, data_dir: String },
    /// A data directory was found near the engine.
    Detected { prefix: String, data_dir: String },
    /// A directory was named or found, but it is not there to be used.
    Unusable,
    /// No data directory was named and none was found.
    NotFound,
}

impl Tessdata {
    /// The directory handed to the engine, where there is one.
    pub open spec fn data_dir(self) -> Option<Seq<char>> {
        match self {
            Tessdata::Given { prefix, data_dir } => Some(data_dir@),
            Tessdata::Detected { prefix, data_dir } => Some(data_dir@),
            _ => None,
        }
    }

    /// What the log says of the language data.
    pub open spec fn lines(self) -> Seq<Seq<char>> {
        match self {
            Tessdata::Given { prefix, data_dir } => seq![
                "TESSDATA_PREFIX nastaven na: "@ + prefix@,
                "--tessdata-dir nastaven na: "@ + data_dir@,
            ],
            Tessdata::Detected { prefix, data_dir } => seq![
                "TESSDATA_PREFIX (auto): "@ + prefix@,
                "--tessdata-dir (auto): "@ + data_dir@,
            ],
            Tessdata::Unusable => Seq::<Seq<char>>::empty(),
            Tessdata::NotFound => seq!["Varování: Tessdata adresář nebyl nalezen"@],
        }
    }
}

/// What looking for the OCR engine's language data found.
#[derive(Clone, Debug, PartialEq, Eq)]
pub enum DataProbe {
    /// The operator named the directory `dir`. `inside` is the directory
    /// `tessdata` inside it, `parent` the directory above it, or `dir` itself
    /// where there is none, and `parent_shown` how that parent is written in
    /// the log.
    Named {
        dir: String,
        dir_exists: bool,
        inside: String,
        inside_is_dir: bool,
        parent: String,
        parent_shown: String,
    },
    /// No directory was named, and a search near the engine came upon
    /// `parent`; `inside` is the directory `tessdata` inside it.
    Found { parent: String, inside: String, inside_is_dir: bool },
    /// No directory was named and the search found none.
    Nothing,
}

/// The language data a run uses, by what was found. A named directory that
/// holds a `tessdata` directory has that one handed to the engine; else the
/// named directory is handed over itself, if it exists. Without a named
/// directory, one that the search found is used if it holds `tessdata`.
pub open spec fn settled_data(probe: DataProbe) -> Tessdata {
    match probe {
        DataProbe::Named { dir, dir_exists, inside, inside_is_dir, parent, parent_shown } => {
            if inside_is_dir {
                Tessdata::Given { prefix: dir, data_dir: inside }
            } else if dir_exists {
                Tessdata::Given { prefix: parent_shown, data_dir: dir }
            } else {
                Tessdata::Unusable
            }
        },
        DataProbe::Found { parent, inside, inside_is_dir } => {
            if inside_is_dir {
                Tessdata::Detected { prefix: parent, data_dir: inside }
            } else {
                Tessdata::Unusable
            }
        },
        DataProbe::Nothing => Tessdata::NotFound,
    }
}

/// The directory the engine is told to take as the prefix of its data, where
/// it is told one: the directory that holds the `tessdata` that is used, or
/// the parent of a named directory that is handed over itself.
pub open spec fn data_prefix(probe: DataProbe) -> Option<String> {
    match probe {
        DataProbe::Named { dir, dir_exists, inside, inside_is_dir, parent, parent_shown } => {
            if inside_is_dir {
                Some(dir)
            } else if dir_exists {
                Some(parent)
            } else {
                None
            }
        },
        DataProbe::Found { parent, inside, inside_is_dir } => {
            if inside_is_dir {
                Some(parent)
            } else {
                None
            }
        },
        DataProbe::Nothing => None,
    }
}

/// Settles which language data a run uses and which data prefix the engine
/// is given.
pub fn settle_tessdata(probe: &DataProbe) -> (settled: (Tessdata, Option<String>))
    ensures
        settled.0 == settled_data(*probe),
        settled.1 == data_prefix(*probe),
{
    match probe {
        DataProbe::Named { dir, dir_exists, inside, inside_is_dir, parent, parent_shown } => {
            if *inside_is_dir {
                (Tessdata::Given { prefix: dir.clone(), data_dir: inside.clone() }, Some(dir.clone()))
            } else if *dir_exists {
                (
                    Tessdata::Given { prefix: parent_shown.clone(), data_dir: dir.clone() },
                    Some(parent.clone()),
                )
            } else {
                (Tessdata::Unusable, None)
            }
        },
        DataProbe::Found { parent, inside, inside_is_dir } => {
            if *inside_is_dir {
                (
                    Tessdata::Detected { prefix: parent.clone(), data_dir: inside.clone() },
                    Some(parent.clone()),
                )
            } else {
                (Tessdata::Unusable, None)
            }
        },
        DataProbe::Nothing => (Tessdata::NotFound, None),
    }
}

/// What one OCR run is asked to do.
#[derive(Clone, Debug, PartialEq, Eq)]
pub struct OcrRequest {
    /// Language tag, such as `ces` or `eng+ces`.
    pub lang: String,
    /// Layout format version, such as `4.4`.
    pub layout_version: String,
    pub want_text: bool,
    pub want_layout: bool,
    pub tessdata: Tessdata,
}

/// The output formats named on the OCR command line: layout first, then
/// text.
pub open spec fn ocr_formats(want_text: bool, want_layout: bool) -> Seq<Seq<char>> {
    (if want_layout {
        seq!["alto"@]
    } else {
        Seq::<Seq<char>>::empty()
    }) + (if want_text {
        seq!["txt"@]
    } else {
        Seq::<Seq<char>>::empty()
    })
}

/// The arguments of one OCR run over `input`, writing to files that start
/// with `stem`.
pub open spec fn tesseract_arguments(request: OcrRequest, input: Seq<char>, stem: Seq<char>) -> Seq<
    Seq<char>,
> {
    (match request.tessdata.data_dir() {
        Some(dir) => seq!["--tessdata-dir"@, dir],
        None => Seq::<Seq<char>>::empty(),
    }) + seq![input, stem, "-l"@, request.lang@] + ocr_formats(
        request.want_text,
        request.want_layout,
    ) + (if request.want_layout {
        seq![
            "-c"@,
            "tessedit_create_alto=1"@,
            "-c"@,
            "alto_version="@ + layout_major(request.layout_version@),
        ]
    } else {
        Seq::<Seq<char>>::empty()
    })
}

/// Builds the argument list of one OCR run.
pub fn tesseract_args(request: &OcrRequest, input: &str, stem: &str) -> (args: Vec<String>)
    ensures
        lines_of(args@) == tesseract_arguments(*request, input@, stem@),
{
    let mut args: Vec<String> = Vec::new();
    match &request.tessdata {
        Tessdata::Given { prefix, data_dir } => {
            push_text(&mut args, "--tessdata-dir");
            push_text(&mut args, data_dir.as_str());
        },
        Tessdata::Detected { prefix, data_dir } => {
            push_text(&mut args, "--tessdata-dir");
            push_text(&mut args, data_dir.as_str());
        },
        _ => {},
    }
    push_text(&mut args, input);
    push_text(&mut args, stem);
    push_text(&mut args, "-l");
    push_text(&mut args, request.lang.as_str());
    if request.want_layout {
        push_text(&mut args, "alto");
    }
    if request.want_text {
        push_text(&mut args, "txt");
    }
    if request.want_layout {
        push_text(&mut args, "-c");
        push_text(&mut args, "tessedit_create_alto=1");
        push_text(&mut args, "-c");
        push_line(
            &mut args,
            concat2("alto_version=", alto_major(request.layout_version.as_str())),
        );
    }
    args
}

/// A command as it is written into the log: the label in brackets, the
/// program, and the arguments separated by spaces.
pub open spec fn command_text(label: Seq<char>, program: Seq<char>, args: Seq<Seq<char>>) -> Seq<
    char,
> {
    "["@ + label + "] "@ + program + " "@ + joined(args, " "@)
}

/// Renders a command for the log.
pub fn command_to_string(label: &str, program: &str, args: &Vec<String>) -> (line: String)
    ensures
        line@ == command_text(label@, program@, lines_of(args@)),
{
    let mut line = String::from_str("[");
    line.append(label);
    line.append("] ");
    line.append(program);
    line.append(" ");
    let tail = join(args, " ");
    line.append(tail.as_str());
    line
}

/// How a started tool ended.
#[derive(Clone, Debug, PartialEq, Eq)]
pub struct ExitReport {
    pub success: bool,
    /// The exit code, where the tool ended with one.
    pub code: Option<i32>,
    pub stdout: String,
    pub stderr: String,
}

/// What came of one planned tool call.
#[derive(Clone, Debug, PartialEq, Eq)]
pub enum ToolOutcome {
    /// The call was not made because the run is a dry run.
    NotRun,
    /// The tool could not be started.
    LaunchFailed,
    Exited(ExitReport),
}

impl ToolOutcome {
    /// Whether the call counts as a success: a dry run does, and a tool that
    /// exited with success.
    pub open spec fn ok(self) -> bool {
        match self {
            ToolOutcome::NotRun => true,
            ToolOutcome::LaunchFailed => false,
            ToolOutcome::Exited(report) => report.success,
        }
    }
}

/// The exit code as it is written: the code, or -1 where there was none.
pub open spec fn shown_code(code: Option<i32>) -> int {
    match code {
        Some(c) => c as int,
        None => -1,
    }
}

/// The name of a profile in messages.
pub open spec fn profile_name(profile: Profile) -> Seq<char> {
    match profile {
        Profile::Master => "Master"@,
        Profile::User => "User"@,
    }
}

/// The message with which a failed encoder call is reported.
pub open spec fn grok_failure(profile: Profile, outcome: ToolOutcome) -> Seq<char> {
    match outcome {
        ToolOutcome::LaunchFailed => "Nelze spustit grk_compress ("@ + profile_name(profile)
            + ")"@,
        _ => "grk_compress "@ + profile_name(profile) + " selhalo"@,
    }
}

/// The log lines of one encoder call: the command, then how it ended.
pub open spec fn grok_lines(command: Seq<char>, outcome: ToolOutcome) -> Seq<Seq<char>> {
    match outcome {
        ToolOutcome::NotRun => seq![command, "(dry-run)"@],
        ToolOutcome::LaunchFailed => seq![command],
        ToolOutcome::Exited(report) => if report.success {
            seq![command, "OK"@]
        } else {
            seq![command, "FAILED: "@ + report.stderr@]
        },
    }
}

/// The label of the encoder in the log.
pub fn grok_label(profile: Profile) -> (label: &'static str)
    ensures
        label@ == "Grok "@ + profile_name(profile),
{
    match profile {
        Profile::Master => {
            proof {
                reveal_strlit("Grok Master");
                reveal_strlit("Grok ");
                reveal_strlit("Master");
            }
            "Grok Master"
        },
        Profile::User => {
            proof {
                reveal_strlit("Grok User");
                reveal_strlit("Grok ");
                reveal_strlit("User");
            }
            "Grok User"
        },
    }
}

fn profile_text(profile: Profile) -> (name: &'static str)
    ensures
        name@ == profile_name(profile),
{
    match profile {
        Profile::Master => "Master",
        Profile::User => "User",
    }
}

/// Records one encoder call in the log and says whether it succeeded. A dry
/// run succeeds without the tool being started. A tool that could not be
/// started, or that exited with failure, gives the failure message.
pub fn grok_report(
    profile: Profile,
    command: &str,
    outcome: &ToolOutcome,
    logs: &mut Vec<String>,
) -> (result: Result<(), String>)
    ensures
        lines_of(final(logs)@) == lines_of(old(logs)@) + grok_lines(command@, *outcome),
        result is Ok <==> outcome.ok(),
        result is Err ==> result->Err_0@ == grok_failure(profile, *outcome),
{
    push_text(logs, command);
    match outcome {
        ToolOutcome::NotRun => {
            push_text(logs, "(dry-run)");
            Ok(())
        },
        ToolOutcome::LaunchFailed => {
            Err(concat3("Nelze spustit grk_compress (", profile_text(profile), ")"))
        },
        ToolOutcome::Exited(report) => {
            if report.success {
                push_text(logs, "OK");
                Ok(())
            } else {
                push_line(logs, concat2("FAILED: ", report.stderr.as_str()));
                Err(concat3("grk_compress ", profile_text(profile), " selhalo"))
            }
        },
    }
}

/// Which OCR outputs are found after a run, and where they are looked for.
#[derive(Clone, Debug, PartialEq, Eq)]
pub struct OcrFiles {
    pub text_path: String,
    pub text_present: bool,
    pub layout_path: String,
    pub layout_present: bool,
}

/// What the log says of the outputs of a successful OCR run: for each wanted
/// output, layout first, that it was made or that it is missing.
pub open spec fn ocr_file_lines(request: OcrRequest, files: OcrFiles) -> Seq<Seq<char>> {
    (if request.want_layout {
        if files.layout_present {
            seq!["✓ ALTO vytvořen: "@ + files.layout_path@]
        } else {
            seq!["✗ ALTO soubor nebyl vytvořen"@]
        }
    } else {
        Seq::<Seq<char>>::empty()
    }) + (if request.want_text {
        if files.text_present {
            seq!["✓ TXT vytvořen: "@ + files.text_path@]
        } else {
            seq!["✗ TXT soubor nebyl vytvořen"@]
        }
    } else {
        Seq::<Seq<char>>::empty()
    })
}

/// What the log says of an OCR run that exited with failure: the exit code,
/// then each captured stream that is not empty.
pub open spec fn ocr_failure_lines(report: ExitReport) -> Seq<Seq<char>> {
    seq!["✗ Tesseract FAILED (exit code: "@ + signed_decimal(shown_code(report.code)) + ")"@] + (
    if report.stdout@.len() > 0 {
        seq!["STDOUT: "@ + report.stdout@]
    } else {
        Seq::<Seq<char>>::empty()
    }) + (if report.stderr@.len() > 0 {
        seq!["STDERR: "@ + report.stderr@]
    } else {
        Seq::<Seq<char>>::empty()
    })
}

/// What the log says of how an OCR call ended.
pub open spec fn ocr_ending_lines(request: OcrRequest, outcome: ToolOutcome, files: OcrFiles) -> Seq<
    Seq<char>,
> {
    match outcome {
        ToolOutcome::NotRun => seq!["(dry-run)"@],
        ToolOutcome::LaunchFailed => seq!["Spouštím Tesseract..."@],
        ToolOutcome::Exited(report) => if report.success {
            seq!["Spouštím Tesseract..."@, "✓ Tesseract OK"@] + ocr_file_lines(request, files)
        } else {
            seq!["Spouštím Tesseract..."@] + ocr_failure_lines(report)
        },
    }
}

/// The log lines of one OCR call: the engine and its settings, the language
/// data, and then either the note that no output is wanted, or the command
/// and how it ended.
pub open spec fn ocr_lines(
    program: Seq<char>,
    request: OcrRequest,
    command: Seq<char>,
    outcome: ToolOutcome,
    files: OcrFiles,
) -> Seq<Seq<char>> {
    seq![
        "Tesseract: "@ + program,
        "Jazyk: "@ + request.lang@,
        "ALTO verze: "@ + request.layout_version@,
    ] + request.tessdata.lines() + (if !request.want_text && !request.want_layout {
        seq!["Žádné výstupní formáty nenastaveny - přeskočeno"@]
    } else {
        seq![command] + ocr_ending_lines(request, outcome, files)
    })
}

/// Whether an OCR call counts as a success: nothing was wanted, or the call
/// itself succeeded.
pub open spec fn ocr_ok(request: OcrRequest, outcome: ToolOutcome) -> bool {
    (!request.want_text && !request.want_layout) || outcome.ok()
}

/// The message with which a failed OCR call is reported.
pub open spec fn ocr_failure(outcome: ToolOutcome) -> Seq<char> {
    match outcome {
        ToolOutcome::Exited(report) => "Tesseract selhalo s exit code "@ + signed_decimal(
            shown_code(report.code),
        ),
        _ => "Nelze spustit tesseract"@,
    }
}

fn push_tessdata_lines(tessdata: &Tessdata, logs: &mut Vec<String>)
    ensures
        lines_of(final(logs)@) == lines_of(old(logs)@) + tessdata.lines(),
{
    match tessdata {
        Tessdata::Given { prefix, data_dir } => {
            push_line(logs, concat2("TESSDATA_PREFIX nastaven na: ", prefix.as_str()));
            push_line(logs, concat2("--tessdata-dir nastaven na: ", data_dir.as_str()));
        },
        Tessdata::Detected { prefix, data_dir } => {
            push_line(logs, concat2("TESSDATA_PREFIX (auto): ", prefix.as_str()));
            push_line(logs, concat2("--tessdata-dir (auto): ", data_dir.as_str()));
        },
        Tessdata::Unusable => {},
        Tessdata::NotFound => {
            push_text(logs, "Varování: Tessdata adresář nebyl nalezen");
        },
    }
}

fn push_ocr_file_lines(request: &OcrRequest, files: &OcrFiles, logs: &mut Vec<String>)
    ensures
        lines_of(final(logs)@) == lines_of(old(logs)@) + ocr_file_lines(*request, *files),
{
    if request.want_layout {
        if files.layout_present {
            push_line(logs, concat2("✓ ALTO vytvořen: ", files.layout_path.as_str()));
        } else {
            push_text(logs, "✗ ALTO soubor nebyl vytvořen");
        }
    }
    if request.want_text {
        if files.text_present {
            push_line(logs, concat2("✓ TXT vytvořen: ", files.text_path.as_str()));
        } else {
            push_text(logs, "✗ TXT soubor nebyl vytvořen");
        }
    }
}

fn code_text(code: &Option<i32>) -> (text: String)
    ensures
        text@ == signed_decimal(shown_code(*code)),
{
    match code {
        Some(c) => signed_decimal_string(*c),
        None => signed_decimal_string(-1),
    }
}

fn push_ocr_failure_lines(report: &ExitReport, logs: &mut Vec<String>)
    ensures
        lines_of(final(logs)@) == lines_of(old(logs)@) + ocr_failure_lines(*report),
{
    let code = code_text(&report.code);
    push_line(logs, concat3("✗ Tesseract FAILED (exit code: ", code.as_str(), ")"));
    if report.stdout.as_str().unicode_len() > 0 {
        push_line(logs, concat2("STDOUT: ", report.stdout.as_str()));
    }
    if report.stderr.as_str().unicode_len() > 0 {
        push_line(logs, concat2("STDERR: ", report.stderr.as_str()));
    }
}

/// Records one OCR call in the log and says whether it succeeded. Where no
/// output is wanted the call is noted as skipped and succeeds. A dry run
/// succeeds without the engine being started. After a successful run the log
/// says of each wanted output whether it is there; that one is missing does
/// not make the call fail.
pub fn tesseract_report(
    program: &str,
    request: &OcrRequest,
    command: &str,
    outcome: &ToolOutcome,
    files: &OcrFiles,
    logs: &mut Vec<String>,
) -> (result: Result<(), String>)
    ensures
        lines_of(final(logs)@) == lines_of(old(logs)@) + ocr_lines(
            program@,
            *request,
            command@,
            *outcome,
            *files,
        ),
        result is Ok <==> ocr_ok(*request, *outcome),
        result is Err ==> result->Err_0@ == ocr_failure(*outcome),
{
    let ghost before = lines_of(logs@);
    push_line(logs, concat2("Tesseract: ", program));
    push_line(logs, concat2("Jazyk: ", request.lang.as_str()));
    push_line(logs, concat2("ALTO verze: ", request.layout_version.as_str()));
    push_tessdata_lines(&request.tessdata, logs);
    let ghost intro = seq![
        "Tesseract: "@ + program@,
        "Jazyk: "@ + request.lang@,
        "ALTO verze: "@ + request.layout_version@,
    ] + request.tessdata.lines();
    assert(lines_of(logs@) =~= before + intro);
    if !request.want_text && !request.want_layout {
        push_text(logs, "Žádné výstupní formáty nenastaveny - přeskočeno");
        assert(lines_of(logs@) =~= before + ocr_lines(
            program@,
            *request,
            command@,
            *outcome,
            *files,
        ));
        return Ok(());
    }
    push_text(logs, command);
    let ghost started = before + intro + seq![command@];
    assert(lines_of(logs@) =~= started);
    let result = match outcome {
        ToolOutcome::NotRun => {
            push_text(logs, "(dry-run)");
            Ok(())
        },
        ToolOutcome::LaunchFailed => {
            push_text(logs, "Spouštím Tesseract...");
            Err(String::from_str("Nelze spustit tesseract"))
        },
        ToolOutcome::Exited(report) => {
            push_text(logs, "Spouštím Tesseract...");
            if report.success {
                push_text(logs, "✓ Tesseract OK");
                push_ocr_file_lines(request, files, logs);
                Ok(())
            } else {
                push_ocr_failure_lines(report, logs);
                let code = code_text(&report.code);
                Err(concat2("Tesseract selhalo s exit code ", code.as_str()))
            }
        },
    };
    assert(lines_of(logs@) =~= started + ocr_ending_lines(*request, *outcome, *files));
    assert(lines_of(logs@) =~= before + ocr_lines(
        program@,
        *request,
        command@,
        *outcome,
        *files,
    ));
    result
}

} // verus!
