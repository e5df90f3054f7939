//! The command lines of the two external tools.

use vstd::prelude::*;

verus! {

/// A program to run and the arguments to run it with.
#[derive(Debug)]
pub struct Invocation {
    pub program: String,
    pub args: Vec<String>,
}

impl Invocation {
    /// The arguments as text.
    pub open spec fn arg_texts(&self) -> Seq<Seq<char>> {
        self.args@.map_values(|a: String| a@)
    }
}

/// The downloader's arguments for `url`: best quality up to 2200 for video
/// and 600 for audio, remuxed, with a quiet progress display.
pub open spec fn download_args(url: Seq<char>) -> Seq<Seq<char>> {
    seq!["-q"@, "2200"@, "-Q"@, "600"@, "--remux"@, "--silent-semi"@, url]
}

/// The FTP address of `host`, on the standard control port.
pub open spec fn ftp_address(host: Seq<char>) -> Seq<char> {
    host + ":21"@
}

/// The FTP client's script: enter the remote directory, put `file`, leave.
pub open spec fn upload_script(file: Seq<char>) -> Seq<char> {
    "cd TvFromPi; put "@ + file + "; exit 0"@
}

/// The FTP client's arguments to send `file` to `host`. No secret is among
/// them: the client reads the credentials itself.
pub open spec fn upload_args(host: Seq<char>, file: Seq<char>) -> Seq<Seq<char>> {
    seq![ftp_address(host), "-e"@, upload_script(file)]
}

/// The downloader run that fetches `url` into the working directory.
pub fn download_invocation(url: &str) -> (r: Invocation)
    ensures
        r.program@ == "svtplay-dl"@,
        r.arg_texts() == download_args(url@),
{
    let mut args: Vec<String> = Vec::new();
    args.push(String::from_str("-q"));
    args.push(String::from_str("2200"));
    args.push(String::from_str("-Q"));
    args.push(String::from_str("600"));
    args.push(String::from_str("--remux"));
    args.push(String::from_str("--silent-semi"));
    args.push(String::from_str(url));
    let r = Invocation { program: String::from_str("svtplay-dl"), args };
    assert(r.arg_texts() =~= download_args(url@));
    r
}

/// The FTP client run that uploads `file` to `host`.
pub fn upload_invocation(host: &str, file: &str) -> (r: Invocation)
    ensures
        r.program@ == "lftp"@,
        r.arg_texts() == upload_args(host@, file@),
{
    let address = String::from_str(host).concat(":21");
    let script = String::from_str("cd TvFromPi; put ").concat(file).concat("; exit 0");
    let mut args: Vec<String> = Vec::new();
    args.push(address);
    args.push(String::from_str("-e"));
    args.push(script);
    let r = Invocation { program: String::from_str("lftp"), args };
    assert(r.arg_texts() =~= upload_args(host@, file@));
    r
}

} // verus!
