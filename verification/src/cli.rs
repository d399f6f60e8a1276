use vstd::prelude::*;

verus! {

/// Whether the command line asks for an instant full-screen shot: the first
/// argument after the program name is `--fullscreen`.
pub fn is_fullscreen(args: &Vec<String>) -> (r: bool)
    ensures
        r == (args@.len() > 1 && args@[1]@ == "--fullscreen"@),
{
    if args.len() > 1 {
        let flag = String::from_str("--fullscreen");
        args[1] == flag
    } else {
        false
    }
}

/// The file a saved screenshot goes to: `<save_dir>/<stamp>.png`.
pub fn screenshot_path(save_dir: &str, stamp: &str) -> (r: String)
    ensures
        r@ == save_dir@ + "/"@ + stamp@ + ".png"@,
{
    String::from_str(save_dir).concat("/").concat(stamp).concat(".png")
}

} // verus!
