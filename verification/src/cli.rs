//! Command-line options of the downloader and the shells that completion
//! scripts can be produced for.

use vstd::prelude::*;
use crate::text::{joined, same_text, split_at_commas, split_commas, texts};
use crate::trusted::{expand_tilde, lowercase, lowercased, tilde_expansion};
use crate::urls::{accept_urls, accepted_urls};

verus! {

/// A shell for which a completion script can be generated.
#[derive(Clone, Copy, Debug, PartialEq, Eq, Structural)]
pub enum Shell {
    Bash,
    Zsh,
    Fish,
    Powershell,
    Elvish,
}

/// The shell with the lower-case name `name`, if there is one.
pub open spec fn shell_named(name: Seq<char>) -> Option<Shell> {
    if name == "bash"@ {
        Some(Shell::Bash)
    } else if name == "zsh"@ {
        Some(Shell::Zsh)
    } else if name == "fish"@ {
        Some(Shell::Fish)
    } else if name == "powershell"@ {
        Some(Shell::Powershell)
    } else if name == "elvish"@ {
        Some(Shell::Elvish)
    } else {
        None
    }
}

/// What asking for the shell named `name` gives, where `lower` is the
/// lower-case form of `name`: the shell of that name, or a complaint that
/// starts with `complaint` and quotes `name` as it was given.
pub open spec fn shell_or_complaint(
    lower: Seq<char>,
    complaint: Seq<char>,
    name: Seq<char>,
    out: Result<Shell, String>,
) -> bool {
    match shell_named(lower) {
        Some(shell) => out == Ok::<Shell, String>(shell),
        None => out matches Err(message) && message@ == complaint + name,
    }
}

impl Shell {
    /// The lower-case name of the shell, as a sequence of characters.
    pub open spec fn spec_name(self) -> Seq<char> {
        match self {
            Shell::Bash => "bash"@,
            Shell::Zsh => "zsh"@,
            Shell::Fish => "fish"@,
            Shell::Powershell => "powershell"@,
            Shell::Elvish => "elvish"@,
        }
    }

    /// The lower-case name of the shell.
    pub fn as_ref(&self) -> (name: &'static str)
        ensures
            name@ == self.spec_name(),
    {
        match self {
            Shell::Bash => "bash",
            Shell::Zsh => "zsh",
            Shell::Fish => "fish",
            Shell::Powershell => "powershell",
            Shell::Elvish => "elvish",
        }
    }

    /// The lower-case name of the shell, as an owned string.
    pub fn to_string(&self) -> (name: String)
        ensures
            name@ == self.spec_name(),
    {
        String::from_str(self.as_ref())
    }

    /// The shell whose lower-case name is `name`, if there is one.
    pub fn from_lowercase(name: &str) -> (out: Option<Shell>)
        ensures
            out == shell_named(name@),
    {
        if same_text(name, "bash") {
            Some(Shell::Bash)
        } else if same_text(name, "zsh") {
            Some(Shell::Zsh)
        } else if same_text(name, "fish") {
            Some(Shell::Fish)
        } else if same_text(name, "powershell") {
            Some(Shell::Powershell)
        } else if same_text(name, "elvish") {
            Some(Shell::Elvish)
        } else {
            None
        }
    }

    /// The shell named `name`, in any mix of upper and lower case, or the
    /// message `Unknown shell: ` followed by `name`.
    pub fn from_str(name: &str) -> (out: Result<Shell, String>)
        ensures
            shell_or_complaint(lowercased(name@), "Unknown shell: "@, name@, out),
    {
        let lower = lowercase(name);
        match Shell::from_lowercase(lower.as_str()) {
            Some(shell) => Ok(shell),
            None => Err(joined("Unknown shell: ", name)),
        }
    }
}

/// The shell to generate a completion script for when `name` is asked for, in
/// any mix of upper and lower case, or the message `Unsupported shell `
/// followed by `name`.
pub fn completion_target(name: &str) -> (out: Result<Shell, String>)
    ensures
        shell_or_complaint(lowercased(name@), "Unsupported shell "@, name@, out),
{
    let lower = lowercase(name);
    match Shell::from_lowercase(lower.as_str()) {
        Some(shell) => Ok(shell),
        None => Err(joined("Unsupported shell ", name)),
    }
}

/// Every shell is found again by its name.
pub proof fn lemma_shell_names_are_distinct(shell: Shell)
    ensures
        shell_named(shell.spec_name()) == Some(shell),
{
    reveal_strlit("bash");
    reveal_strlit("zsh");
    reveal_strlit("fish");
    reveal_strlit("powershell");
    reveal_strlit("elvish");
    let name = shell.spec_name();
    match shell {
        Shell::Bash => {},
        Shell::Zsh => {
            assert(name.len() == 3);
        },
        Shell::Fish => {
            assert(name[0] == 'f');
        },
        Shell::Powershell => {
            assert(name.len() == 10);
        },
        Shell::Elvish => {
            assert(name.len() == 6);
        },
    }
}

/// The options of the command line.
#[derive(Clone, Debug)]
pub struct Cli {
    urls: String,
    /// The destination folder, as it was given.
    pub dest: String,
    /// The number of concurrent workers.
    pub workers: usize,
    /// Whether the destination folder is emptied first.
    pub clean: bool,
    /// The shell to generate a completion script for, instead of downloading.
    pub completion: Option<Shell>,
}

/// The mathematical value of a [`Cli`].
pub ghost struct CliView {
    /// The comma-separated list of URLs, as it was given.
    pub urls: Seq<char>,
    pub dest: Seq<char>,
    pub workers: usize,
    pub clean: bool,
    pub completion: Option<Shell>,
}

impl View for Cli {
    type V = CliView;

    closed spec fn view(&self) -> CliView {
        CliView {
            urls: self.urls@,
            dest: self.dest@,
            workers: self.workers,
            clean: self.clean,
            completion: self.completion,
        }
    }
}

impl Cli {
    /// The options with the comma-separated list `urls`.
    pub fn new(
        urls: String,
        dest: String,
        workers: usize,
        clean: bool,
        completion: Option<Shell>,
    ) -> (out: Cli)
        ensures
            out@ == (CliView { urls: urls@, dest: dest@, workers, clean, completion }),
    {
        Cli { urls, dest, workers, clean, completion }
    }

    /// The comma-separated list of URLs, as it was given.
    pub fn url_list(&self) -> (out: &str)
        ensures
            out@ == self@.urls,
    {
        self.urls.as_str()
    }

    /// The entries of the list of URLs, as they were given.
    pub fn url_entries(&self) -> (out: Vec<String>)
        ensures
            texts(out@) == split_commas(self@.urls),
    {
        split_at_commas(self.urls.as_str())
    }

    /// The URLs to download: the entries of the comma-separated list, each
    /// trimmed, without the empty ones and those that cannot be parsed, in
    /// normal form.
    pub fn get_urls(&self) -> (out: Vec<String>)
        ensures
            texts(out@) == accepted_urls(split_commas(self@.urls)),
    {
        let entries = self.url_entries();
        accept_urls(&entries)
    }

    /// The destination folder, with a leading `~` replaced by the home
    /// directory where there is one.
    pub fn get_dest(&self) -> (out: String)
        ensures
            tilde_expansion(self@.dest, out@),
    {
        expand_tilde(self.dest.as_str())
    }

    /// The number of concurrent workers.
    pub fn get_workers(&self) -> (out: usize)
        ensures
            out == self@.workers,
    {
        self.workers
    }

    /// Whether the destination folder is emptied first.
    pub fn get_clean(&self) -> (out: bool)
        ensures
            out == self@.clean,
    {
        self.clean
    }

    /// The shell to generate a completion script for, if one was asked for.
    pub fn get_completion(&self) -> (out: Option<Shell>)
        ensures
            out == self@.completion,
    {
        self.completion
    }
}

} // verus!
