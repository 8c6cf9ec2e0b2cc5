//! The platform the tool runs on, and the few decisions that depend on it.
use vstd::prelude::*;
use vstd::string::*;
use crate::text::TextDecoding;

verus! {

/// The operating system family the tool runs on.
#[derive(Clone, Copy, Debug, PartialEq, Eq, Structural)]
pub enum Platform {
    Windows,
    MacOs,
    Linux,
    Android,
}

impl TextDecoding {
    /// The engine's output decoding on `platform`: GBK on Windows, UTF-8
    /// with replacement elsewhere.
    pub fn for_platform(platform: Platform) -> (r: TextDecoding)
        ensures
            platform == Platform::Windows ==> r == TextDecoding::Gbk,
            platform != Platform::Windows ==> r == TextDecoding::Utf8Lossy,
    {
        match platform {
            Platform::Windows => TextDecoding::Gbk,
            _ => TextDecoding::Utf8Lossy,
        }
    }
}

/// The directory where users place engines by hand on Android.
pub fn get_user_engine_directory() -> (r: String)
    ensures
        r@ == "/storage/emulated/0/jieqibox/engines"@,
{
    String::from_str("/storage/emulated/0/jieqibox/engines")
}

/// `head`, then `middle`, then `tail`.
fn concat3(head: &str, middle: &str, tail: &str) -> (r: String)
    ensures
        r@ == head@ + middle@ + tail@,
{
    let mut r = String::from_str(head);
    r.append(middle);
    r.append(tail);
    r
}

/// The app's private data directory on Android: `/data/data/<bundle>/files`.
pub open spec fn private_files_dir(bundle_id: Seq<char>) -> Seq<char> {
    "/data/data/"@ + bundle_id + "/files"@
}

/// The app's external data directory on Android.
pub open spec fn external_files_dir(bundle_id: Seq<char>) -> Seq<char> {
    "/storage/emulated/0/Android/data/"@ + bundle_id + "/files"@
}

/// Where the configuration file lives: in the app's private data directory
/// on Android, beside the executable elsewhere.
pub fn get_config_file_path(platform: Platform, bundle_id: &str) -> (r: String)
    ensures
        platform == Platform::Android ==> r@ == private_files_dir(bundle_id@) + "/config.ini"@,
        platform != Platform::Android ==> r@ == "config.ini"@,
{
    if platform == Platform::Android {
        let r = concat3("/data/data/", bundle_id, "/files/config.ini");
        proof {
            reveal_strlit("/files/config.ini");
            reveal_strlit("/files");
            reveal_strlit("/config.ini");
        }
        assert(r@ =~= private_files_dir(bundle_id@) + "/config.ini"@);
        r
    } else {
        String::from_str("config.ini")
    }
}

/// The directory in private storage that holds the engines the app runs.
pub fn internal_engine_dir(bundle_id: &str) -> (r: String)
    ensures
        r@ == private_files_dir(bundle_id@) + "/engines"@,
{
    let r = concat3("/data/data/", bundle_id, "/files/engines");
    proof {
        reveal_strlit("/files/engines");
        reveal_strlit("/files");
        reveal_strlit("/engines");
    }
    assert(r@ =~= private_files_dir(bundle_id@) + "/engines"@);
    r
}

/// The directories scanned for engines to copy into private storage: the
/// user directory, then the app's external engine directory.
pub fn engine_source_dirs(bundle_id: &str) -> (r: Vec<String>)
    ensures
        r@.len() == 2,
        r@[0]@ == "/storage/emulated/0/jieqibox/engines"@,
        r@[1]@ == external_files_dir(bundle_id@) + "/engines"@,
{
    let external = concat3("/storage/emulated/0/Android/data/", bundle_id, "/files/engines");
    proof {
        reveal_strlit("/files/engines");
        reveal_strlit("/files");
        reveal_strlit("/engines");
    }
    assert(external@ =~= external_files_dir(bundle_id@) + "/engines"@);
    let mut r: Vec<String> = Vec::new();
    r.push(get_user_engine_directory());
    r.push(external);
    r
}

/// `dir/name`.
pub open spec fn path_in(dir: Seq<char>, name: Seq<char>) -> Seq<char> {
    dir + "/"@ + name
}

/// `dir/name`.
pub fn join_path(dir: &str, name: &str) -> (r: String)
    ensures
        r@ == path_in(dir@, name@),
{
    concat3(dir, "/", name)
}

/// Where a saved game notation goes: a directory and the file in it.
pub struct NotationTarget {
    pub dir: String,
    pub file: String,
}

/// Where to save the notation `filename`: the `notations` directory of the
/// app's external storage. Only Android has one.
pub fn notation_target(platform: Platform, bundle_id: &str, filename: &str) -> (r: Result<
    NotationTarget,
    String,
>)
    ensures
        platform != Platform::Android ==> r is Err && r->Err_0@
            == "This function is only available on Android"@,
        platform == Platform::Android ==> r is Ok && r->Ok_0.dir@ == external_files_dir(bundle_id@)
            + "/notations"@ && r->Ok_0.file@ == path_in(r->Ok_0.dir@, filename@),
{
    if platform != Platform::Android {
        return Err(String::from_str("This function is only available on Android"));
    }
    let dir = concat3("/storage/emulated/0/Android/data/", bundle_id, "/files/notations");
    proof {
        reveal_strlit("/files/notations");
        reveal_strlit("/files");
        reveal_strlit("/notations");
    }
    assert(dir@ =~= external_files_dir(bundle_id@) + "/notations"@);
    let file = join_path(dir.as_str(), filename);
    Ok(NotationTarget { dir, file })
}

/// Where an engine picked with the system file picker is installed: its own
/// directory under the private engine directory, and the file in it.
pub struct EngineInstallTarget {
    pub dir: String,
    pub file: String,
}

/// Where to install the engine `name` whose picked file, copied to
/// `temp_path`, is called `filename`. Fails when the copy has no path.
pub fn engine_install_target(bundle_id: &str, name: &str, filename: &str, temp_path: &str) -> (r:
    Result<EngineInstallTarget, String>)
    ensures
        temp_path@.len() == 0 ==> r is Err && r->Err_0@
            == "SAF file processing failed: temporary path is empty."@,
        temp_path@.len() > 0 ==> r is Ok && r->Ok_0.dir@ == path_in(
            private_files_dir(bundle_id@) + "/engines"@,
            name@,
        ) && r->Ok_0.file@ == path_in(r->Ok_0.dir@, filename@),
{
    if temp_path.is_empty() {
        return Err(String::from_str("SAF file processing failed: temporary path is empty."));
    }
    let engines = internal_engine_dir(bundle_id);
    let dir = join_path(engines.as_str(), name);
    let file = join_path(dir.as_str(), filename);
    Ok(EngineInstallTarget { dir, file })
}

/// How to open a URL in the system browser.
pub enum UrlOpener {
    /// Run this program with these arguments.
    Spawn { program: String, args: Vec<String> },
    /// Hand the URL to the native layer as an `open-external-url` event.
    Delegate,
}

/// How `platform` opens `url`: `cmd /C start` on Windows, `open` on macOS,
/// the native layer on Android, `xdg-open` on Linux.
pub fn open_external_url(platform: Platform, url: &str) -> (r: UrlOpener)
    ensures
        platform == Platform::Android ==> r is Delegate,
        platform == Platform::Windows ==> r is Spawn && r->program@ == "cmd"@ && r->args@.len() == 3
            && r->args@[0]@ == "/C"@ && r->args@[1]@ == "start"@ && r->args@[2]@ == url@,
        platform == Platform::MacOs ==> r is Spawn && r->program@ == "open"@ && r->args@.len() == 1
            && r->args@[0]@ == url@,
        platform == Platform::Linux ==> r is Spawn && r->program@ == "xdg-open"@ && r->args@.len()
            == 1 && r->args@[0]@ == url@,
{
    let mut args: Vec<String> = Vec::new();
    match platform {
        Platform::Windows => {
            args.push(String::from_str("/C"));
            args.push(String::from_str("start"));
            args.push(String::from_str(url));
            UrlOpener::Spawn { program: String::from_str("cmd"), args }
        },
        Platform::MacOs => {
            args.push(String::from_str(url));
            UrlOpener::Spawn { program: String::from_str("open"), args }
        },
        Platform::Android => UrlOpener::Delegate,
        Platform::Linux => {
            args.push(String::from_str(url));
            UrlOpener::Spawn { program: String::from_str("xdg-open"), args }
        },
    }
}

} // verus!
