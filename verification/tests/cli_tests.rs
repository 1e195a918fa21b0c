use raccpack_tui::cli::ViewArg;
use raccpack_tui::nav::ViewId;

/// The launch parser as the binary declares it: `--view` takes one of the
/// views' value names and defaults to `overview`.
fn command() -> clap::Command {
    let names: Vec<&'static str> = ViewArg::all().into_iter().map(|a| a.value_name()).collect();
    clap::Command::new("racc-tui")
        .version("0.4.4")
        .arg(
            clap::Arg::new("view")
                .long("view")
                .value_parser(clap::builder::PossibleValuesParser::new(names))
                .default_value("overview"),
        )
}

fn parse_view(args: &[&str]) -> Result<ViewArg, clap::Error> {
    let matches = command().try_get_matches_from(args)?;
    let name = matches.get_one::<String>("view").expect("defaulted");
    Ok(ViewArg::from_value_name(name).expect("clap only accepts listed names"))
}

#[test]
fn view_arg_matches_view_id_bijection() {
    for arg in [ViewArg::Overview, ViewArg::Projects, ViewArg::Findings, ViewArg::Operations] {
        let view = arg.to_view_id();
        assert_eq!(ViewArg::from(view), arg, "ViewArg -> ViewId -> ViewArg");
        assert_eq!(ViewArg::from(view).to_view_id(), view, "round-trip");
    }
}

#[test]
fn lower_names_map_to_expected_views() {
    for (name, expected) in [
        ("overview", ViewId::Overview),
        ("projects", ViewId::Projects),
        ("findings", ViewId::Findings),
        ("operations", ViewId::Operations),
    ] {
        let view = parse_view(&["racc-tui", "--view", name]).expect("parses");
        assert_eq!(view.to_view_id(), expected);
    }
}

#[test]
fn version_and_help_flags_short_circuit() {
    for (args, kind) in [
        (["racc-tui", "--version"], clap::error::ErrorKind::DisplayVersion),
        (["racc-tui", "-V"], clap::error::ErrorKind::DisplayVersion),
        (["racc-tui", "--help"], clap::error::ErrorKind::DisplayHelp),
        (["racc-tui", "-h"], clap::error::ErrorKind::DisplayHelp),
    ] {
        let err = parse_view(&args).expect_err("must short-circuit");
        assert_eq!(err.kind(), kind, "{args:?} should yield {kind:?}");
    }
}

#[test]
fn default_view_is_overview() {
    let view = parse_view(&["racc-tui"]).expect("parses");
    assert_eq!(view.to_view_id(), ViewId::Overview);
}

#[test]
fn unknown_view_names_are_refused() {
    assert_eq!(ViewArg::from_value_name("Overview"), None);
    assert_eq!(ViewArg::from_value_name("tree"), None);
    assert!(parse_view(&["racc-tui", "--view", "tree"]).is_err());
}
