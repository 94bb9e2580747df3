use vstd::prelude::*;
use vstd::string::*;

verus! {

/// Name under which the downloader is looked up when no other is configured.
pub const DEFAULT_BINARY: &'static str = "yt-dlp";

/// File name pattern, in the downloader's own template language, that names
/// each file after the video's title and extension.
pub const OUTPUT_PATTERN: &'static str = "%(title)s.%(ext)s";

/// The option that introduces the output template on the downloader's command line.
pub const OUTPUT_FLAG: &'static str = "-o";

/// `dir` followed by `file`, with a `/` between them unless `dir` is empty or
/// already ends with one.
pub open spec fn spec_join(dir: Seq<char>, file: Seq<char>) -> Seq<char> {
    if dir.len() == 0 || dir.last() == '/' {
        dir + file
    } else {
        dir + seq!['/'] + file
    }
}

/// Joins a directory and a file name with a `/`, adding none where `dir` is
/// empty or ends with one.
pub fn join_dir(dir: &str, file: &str) -> (r: String)
    ensures
        r@ == spec_join(dir@, file@),
{
    let mut r = String::from_str(dir);
    let n = dir.unicode_len();
    if n > 0 && dir.get_char(n - 1) != '/' {
        proof {
            reveal_strlit("/");
        }
        r.append("/");
    }
    r.append(file);
    r
}

/// The program that is run: the configured override where there is one, else
/// the default name, resolved through the search path.
pub fn downloader_binary(configured: Option<String>) -> (r: String)
    ensures
        configured is Some ==> r@ == configured->0@,
        configured is None ==> r@ == DEFAULT_BINARY@,
{
    match configured {
        Some(b) => b,
        None => String::from_str(DEFAULT_BINARY),
    }
}

/// One download: the address of the video and the directory it is saved in.
/// It does not change while the download runs.
pub struct DownloadRequest {
    pub url: String,
    pub output_dir: String,
}

impl DownloadRequest {
    /// The output template: the output directory joined with the file name pattern.
    pub open spec fn spec_output_template(&self) -> Seq<char> {
        spec_join(self.output_dir@, OUTPUT_PATTERN@)
    }

    /// The arguments of the downloader: the address, then the output option and template.
    pub open spec fn spec_arguments(&self) -> Seq<Seq<char>> {
        seq![self.url@, OUTPUT_FLAG@, self.spec_output_template()]
    }

    pub fn new(url: String, output_dir: String) -> (r: DownloadRequest)
        ensures
            r.url@ == url@,
            r.output_dir@ == output_dir@,
    {
        DownloadRequest { url, output_dir }
    }

    pub fn output_template(&self) -> (r: String)
        ensures
            r@ == self.spec_output_template(),
    {
        join_dir(self.output_dir.as_str(), OUTPUT_PATTERN)
    }

    /// The command line handed to the downloader, program name aside:
    /// `<url> -o <output_dir>/%(title)s.%(ext)s`.
    pub fn arguments(&self) -> (r: Vec<String>)
        ensures
            r@.map_values(|a: String| a@) == self.spec_arguments(),
    {
        let mut args: Vec<String> = Vec::new();
        args.push(self.url.clone());
        args.push(String::from_str(OUTPUT_FLAG));
        args.push(self.output_template());
        assert(args@.map_values(|a: String| a@) =~= self.spec_arguments());
        args
    }
}

} // verus!
