//! Command line arguments of the mixer.
use vstd::prelude::*;
use crate::text::{join_path, joined_path};

verus! {

/// A problem with the command line that is reported and skipped.
#[derive(Debug, Clone, Copy, PartialEq, Eq, Structural)]
pub enum CliWarning {
    /// `--source` requires NAME and SOCKET_PATH arguments
    SourceNeedsArguments,
    /// `--music-dir` requires a PATH argument
    MusicDirNeedsPath,
    /// `--samples-dir` requires a PATH argument
    SamplesDirNeedsPath,
}

/// What the command line asks for.
#[derive(Debug, Clone)]
pub struct CliArgs {
    /// Audio sources as (name, socket path), in order.
    pub sources: Vec<(String, String)>,
    pub auto_discover: bool,
    pub music_dir: Option<String>,
    pub samples_dir: Option<String>,
    /// Problems found, in the order they were met.
    pub warnings: Vec<CliWarning>,
    /// `--help` was given: the help text is shown and the program stops.
    pub show_help: bool,
}

/// The meaning of parsed arguments.
pub struct CliView {
    pub sources: Seq<(Seq<char>, Seq<char>)>,
    pub auto_discover: bool,
    pub music_dir: Option<Seq<char>>,
    pub samples_dir: Option<Seq<char>>,
    pub warnings: Seq<CliWarning>,
    pub show_help: bool,
}

impl View for CliArgs {
    type V = CliView;

    open spec fn view(&self) -> CliView {
        CliView {
            sources: self.sources@.map_values(|p: (String, String)| (p.0@, p.1@)),
            auto_discover: self.auto_discover,
            music_dir: match self.music_dir {
                Some(d) => Some(d@),
                None => None,
            },
            samples_dir: match self.samples_dir {
                Some(d) => Some(d@),
                None => None,
            },
            warnings: self.warnings@,
            show_help: self.show_help,
        }
    }
}

/// Nothing parsed yet.
pub open spec fn empty_cli() -> CliView {
    CliView {
        sources: Seq::empty(),
        auto_discover: false,
        music_dir: None,
        samples_dir: None,
        warnings: Seq::empty(),
        show_help: false,
    }
}

/// Parse the arguments from position `i` on: options with missing values
/// are reported and skipped, unknown arguments are ignored, and `--help`
/// stops parsing.
pub open spec fn parse_from(args: Seq<Seq<char>>, i: int, st: CliView) -> CliView
    decreases args.len() - i,
{
    if i < 1 || i >= args.len() {
        st
    } else {
        let a = args[i];
        if a == "--source"@ || a == "-s"@ {
            if i + 2 < args.len() {
                parse_from(
                    args,
                    i + 3,
                    CliView { sources: st.sources.push((args[i + 1], args[i + 2])), ..st },
                )
            } else {
                parse_from(
                    args,
                    i + 1,
                    CliView { warnings: st.warnings.push(CliWarning::SourceNeedsArguments), ..st },
                )
            }
        } else if a == "--music-dir"@ || a == "-m"@ {
            if i + 1 < args.len() {
                parse_from(args, i + 2, CliView { music_dir: Some(args[i + 1]), ..st })
            } else {
                parse_from(
                    args,
                    i + 1,
                    CliView { warnings: st.warnings.push(CliWarning::MusicDirNeedsPath), ..st },
                )
            }
        } else if a == "--samples-dir"@ || a == "-S"@ {
            if i + 1 < args.len() {
                parse_from(args, i + 2, CliView { samples_dir: Some(args[i + 1]), ..st })
            } else {
                parse_from(
                    args,
                    i + 1,
                    CliView { warnings: st.warnings.push(CliWarning::SamplesDirNeedsPath), ..st },
                )
            }
        } else if a == "--discover"@ || a == "-d"@ {
            parse_from(args, i + 1, CliView { auto_discover: true, ..st })
        } else if a == "--help"@ || a == "-h"@ {
            CliView { show_help: true, ..st }
        } else {
            parse_from(args, i + 1, st)
        }
    }
}

/// Defaults applied after parsing (unless help was asked for): discover
/// sources when none was given, and browse `$HOME/Music` when no music
/// directory was given and the home directory is known.
pub open spec fn with_defaults(st: CliView, home: Option<Seq<char>>) -> CliView {
    if st.show_help {
        st
    } else {
        CliView {
            auto_discover: st.auto_discover || st.sources.len() == 0,
            music_dir: if st.music_dir is None && home is Some {
                Some(joined_path(home->0, "Music"@))
            } else {
                st.music_dir
            },
            ..st
        }
    }
}

/// Parse the command line (`args[0]` is the program name), given the home
/// directory if it is known.
pub fn parse_args(args: &[String], home: Option<String>) -> (cli: CliArgs)
    ensures
        cli@ == with_defaults(
            parse_from(args@.map_values(|s: String| s@), 1, empty_cli()),
            match home {
                Some(h) => Some(h@),
                None => None,
            },
        ),
{
    let ghost views = args@.map_values(|s: String| s@);
    let long_source = "--source".to_owned();
    let short_source = "-s".to_owned();
    let long_music = "--music-dir".to_owned();
    let short_music = "-m".to_owned();
    let long_samples = "--samples-dir".to_owned();
    let short_samples = "-S".to_owned();
    let long_discover = "--discover".to_owned();
    let short_discover = "-d".to_owned();
    let long_help = "--help".to_owned();
    let short_help = "-h".to_owned();
    let mut cli = CliArgs {
        sources: Vec::new(),
        auto_discover: false,
        music_dir: None,
        samples_dir: None,
        warnings: Vec::new(),
        show_help: false,
    };
    proof {
        assert(cli@.sources =~= Seq::<(Seq<char>, Seq<char>)>::empty());
        assert(cli@.warnings =~= Seq::<CliWarning>::empty());
    }
    let n = args.len();
    let mut i: usize = 1;
    while i < n
        invariant
            n == args@.len(),
            views == args@.map_values(|s: String| s@),
            1 <= i,
            !cli.show_help,
            long_source@ == "--source"@,
            short_source@ == "-s"@,
            long_music@ == "--music-dir"@,
            short_music@ == "-m"@,
            long_samples@ == "--samples-dir"@,
            short_samples@ == "-S"@,
            long_discover@ == "--discover"@,
            short_discover@ == "-d"@,
            long_help@ == "--help"@,
            short_help@ == "-h"@,
            parse_from(views, i as int, cli@) == parse_from(views, 1, empty_cli()),
        decreases n - i,
    {
        let a = &args[i];
        if *a == long_source || *a == short_source {
            if n - i > 2 {
                let ghost before = cli@;
                let name = args[i + 1].clone();
                let socket = args[i + 2].clone();
                cli.sources.push((name, socket));
                proof {
                    assert(cli@.sources =~= before.sources.push((views[i + 1], views[i + 2])));
                }
                i = i + 3;
            } else {
                let ghost before = cli@;
                cli.warnings.push(CliWarning::SourceNeedsArguments);
                proof {
                    assert(cli@.sources =~= before.sources);
                }
                i = i + 1;
            }
        } else if *a == long_music || *a == short_music {
            if i + 1 < n {
                cli.music_dir = Some(args[i + 1].clone());
                i = i + 2;
            } else {
                let ghost before = cli@;
                cli.warnings.push(CliWarning::MusicDirNeedsPath);
                proof {
                    assert(cli@.sources =~= before.sources);
                }
                i = i + 1;
            }
        } else if *a == long_samples || *a == short_samples {
            if i + 1 < n {
                cli.samples_dir = Some(args[i + 1].clone());
                i = i + 2;
            } else {
                let ghost before = cli@;
                cli.warnings.push(CliWarning::SamplesDirNeedsPath);
                proof {
                    assert(cli@.sources =~= before.sources);
                }
                i = i + 1;
            }
        } else if *a == long_discover || *a == short_discover {
            cli.auto_discover = true;
            i = i + 1;
        } else if *a == long_help || *a == short_help {
            cli.show_help = true;
            return cli;
        } else {
            i = i + 1;
        }
    }
    if cli.sources.len() == 0 {
        cli.auto_discover = true;
    }
    if cli.music_dir.is_none() {
        if let Some(h) = home {
            let music = "Music".to_owned();
            cli.music_dir = Some(join_path(h.as_str(), music.as_str()));
        }
    }
    cli
}

} // verus!
