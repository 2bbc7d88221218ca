//! Application settings that have fixed defaults, and the choice of the
//! directory that holds the application's data.
use vstd::prelude::*;
use vstd::string::StrSliceExecFns;

verus! {

/// Settings of the query engine.
#[derive(Clone, Debug)]
pub struct DataFusionConfig {
    /// Rows per batch when results are streamed.
    pub stream_batch_size: usize,
}

fn default_stream_batch_size() -> (r: usize)
    ensures
        r == 1,
{
    1
}

impl Default for DataFusionConfig {
    fn default() -> (r: Self)
        ensures
            r.stream_batch_size == 1,
    {
        DataFusionConfig { stream_batch_size: default_stream_batch_size() }
    }
}

/// Input devices the terminal interface listens to.
#[derive(Clone, Debug)]
pub struct InteractionConfig {
    pub mouse: bool,
    pub paste: bool,
}

fn default_mouse() -> (r: bool)
    ensures
        !r,
{
    false
}

fn default_paste() -> (r: bool)
    ensures
        !r,
{
    false
}

impl Default for InteractionConfig {
    fn default() -> (r: Self)
        ensures
            !r.mouse,
            !r.paste,
    {
        InteractionConfig { mouse: default_mouse(), paste: default_paste() }
    }
}

/// Settings of the FlightSQL client.
#[derive(Clone, Debug)]
pub struct FlightSQLClientConfig {
    /// The address of the server.
    pub connection_url: String,
    /// How many times a benchmarked query runs.
    pub benchmark_iterations: usize,
}

/// How many times a benchmarked query runs where the configuration does not
/// say.
pub fn default_benchmark_iterations() -> (r: usize)
    ensures
        r == 10,
{
    10
}

impl Default for FlightSQLClientConfig {
    fn default() -> (r: Self)
        ensures
            r.connection_url@ == "http://localhost:50051"@,
            r.benchmark_iterations == 10,
    {
        FlightSQLClientConfig {
            connection_url: default_connection_url(),
            benchmark_iterations: default_benchmark_iterations(),
        }
    }
}

/// Settings of the query editor.
#[derive(Clone, Debug)]
pub struct EditorConfig {
    pub experimental_syntax_highlighting: bool,
}

impl Default for EditorConfig {
    fn default() -> (r: Self)
        ensures
            !r.experimental_syntax_highlighting,
    {
        EditorConfig { experimental_syntax_highlighting: false }
    }
}

/// The engine settings used where the configuration gives none.
pub fn default_datafusion_config() -> (r: DataFusionConfig)
    ensures
        r.stream_batch_size == 1,
{
    DataFusionConfig::default()
}

/// The interaction settings used where the configuration gives none.
pub fn default_interaction_config() -> (r: InteractionConfig)
    ensures
        !r.mouse,
        !r.paste,
{
    InteractionConfig::default()
}

/// The editor settings used where the configuration gives none.
pub fn default_editor_config() -> (r: EditorConfig)
    ensures
        !r.experimental_syntax_highlighting,
{
    EditorConfig::default()
}

/// The address of the FlightSQL server used where the configuration gives
/// none.
pub fn default_connection_url() -> (r: String)
    ensures
        r@ == "http://localhost:50051"@,
{
    "http://localhost:50051".to_owned()
}

/// `part` appended to `base` as a path: after a `/` separator, unless
/// `base` is empty or already ends with one.
pub open spec fn joined(base: Seq<char>, part: Seq<char>) -> Seq<char> {
    if base.len() == 0 || base.last() == '/' {
        base + part
    } else {
        base + seq!['/'] + part
    }
}

/// Relies on `String::push`: the character is appended at the end.
pub assume_specification[ String::push ](s: &mut String, ch: char)
    ensures
        final(s)@ == old(s)@.push(ch),
;

/// Relies on `String::push_str`: the slice is appended at the end.
pub assume_specification[ String::push_str ](s: &mut String, string: &str)
    ensures
        final(s)@ == old(s)@ + string@,
;

/// `part` appended to the path `base`, as `joined` describes.
pub fn join_path(base: &str, part: &str) -> (r: String)
    ensures
        r@ == joined(base@, part@),
{
    let mut out = base.to_owned();
    let n: usize = base.unicode_len();
    if n > 0 && base.get_char(n - 1) != '/' {
        out.push('/');
    }
    out.push_str(part);
    proof {
        if n > 0 && base@.last() != '/' {
            assert(out@ =~= base@ + seq!['/'] + part@);
        }
    }
    out
}

/// The directory for the application's data: the one configured by the
/// environment where there is one, else `.config/dft` under the home
/// directory, else the platform's local data directory for the application.
/// At least one of the three must be known.
pub fn get_data_dir(
    data_folder: Option<String>,
    home_dir: Option<String>,
    project_data_local_dir: Option<String>,
) -> (r: String)
    requires
        data_folder.is_some() || home_dir.is_some() || project_data_local_dir.is_some(),
    ensures
        data_folder.is_some() ==> r == data_folder->Some_0,
        data_folder.is_none() && home_dir.is_some() ==> r@ == joined(
            joined(home_dir->Some_0@, ".config"@),
            "dft"@,
        ),
        data_folder.is_none() && home_dir.is_none() ==> r == project_data_local_dir->Some_0,
{
    match data_folder {
        Some(dir) => dir,
        None => match home_dir {
            Some(home) => {
                let config = join_path(home.as_str(), ".config");
                join_path(config.as_str(), "dft")
            },
            None => match project_data_local_dir {
                Some(dir) => dir,
                None => {
                    assert(false);
                    String::new()
                },
            },
        },
    }
}

} // verus!
