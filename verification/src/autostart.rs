//! Starting the agent with the desktop session: where the desktop entry
//! goes and what it holds. Writing the file, removing it and looking for it
//! is the caller's work.

use vstd::prelude::*;
use vstd::string::StringExecFns;

verus! {

/// The directory of autostart entries, below the home directory.
pub open spec fn autostart_dir(home: Seq<char>) -> Seq<char> {
    home + "/.config/autostart"@
}

/// The path of the agent's desktop entry.
pub open spec fn desktop_file_path(home: Seq<char>) -> Seq<char> {
    autostart_dir(home) + "/ficha.desktop"@
}

/// What the desktop entry holds up to the path of the executable.
pub open spec fn desktop_entry_head() -> Seq<char> {
    "[Desktop Entry]\nType=Application\nName=FICHA\nGenericName=Application Security Vault\nComment=Application security monitoring and protection\nExec="@
}

/// What the desktop entry holds behind the path of the executable.
pub open spec fn desktop_entry_tail() -> Seq<char> {
    "\nIcon=ficha\nTerminal=false\nCategories=Security;System;\nX-GNOME-Autostart-enabled=true\nStartupWMClass=ficha\n"@
}

/// The desktop entry that starts the executable at `exe_path`.
pub open spec fn desktop_entry(exe_path: Seq<char>) -> Seq<char> {
    desktop_entry_head() + exe_path + desktop_entry_tail()
}

/// Registration of the agent among the programs that the desktop session
/// starts.
pub struct AutoStart;

impl AutoStart {
    /// The directory of autostart entries of the user whose home directory
    /// is `home`.
    pub fn get_autostart_dir(home: &str) -> (r: String)
        ensures
            r@ == autostart_dir(home@),
    {
        let mut r = String::from_str(home);
        r.append("/.config/autostart");
        r
    }

    /// The path of the agent's desktop entry for the user whose home
    /// directory is `home`.
    pub fn get_desktop_file_path(home: &str) -> (r: String)
        ensures
            r@ == desktop_file_path(home@),
    {
        let mut r = Self::get_autostart_dir(home);
        r.append("/ficha.desktop");
        r
    }

    /// The text of the desktop entry that starts the executable at
    /// `exe_path`.
    pub fn desktop_entry(exe_path: &str) -> (r: String)
        ensures
            r@ == desktop_entry(exe_path@),
    {
        let mut r = String::from_str(
            "[Desktop Entry]\nType=Application\nName=FICHA\nGenericName=Application Security Vault\nComment=Application security monitoring and protection\nExec=",
        );
        r.append(exe_path);
        r.append(
            "\nIcon=ficha\nTerminal=false\nCategories=Security;System;\nX-GNOME-Autostart-enabled=true\nStartupWMClass=ficha\n",
        );
        r
    }
}

} // verus!
