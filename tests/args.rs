use weather::args::{Args, ArgsError, Units, PROGRAM_VERSION};

fn parse(tokens: &[&str]) -> weather::args::Config {
    let owned: Vec<String> = tokens.iter().map(|t| t.to_string()).collect();
    Args::parse(&owned).unwrap()
}

#[test]
fn args_parse_unit() {
    let opt = Args::parse(&[]).unwrap();
    assert_eq!(opt.units, None);

    let opt = Args::parse(&["--metric".to_string()]).unwrap();
    assert_eq!(opt.units, Some(Units::Celsius));
    let opt = Args::parse(&["-m".to_string()]).unwrap();
    assert_eq!(opt.units, Some(Units::Celsius));

    let opt = Args::parse(&["--imperial".to_string()]).unwrap();
    assert_eq!(opt.units, Some(Units::Fahrenheit));
    let opt = Args::parse(&["-i".to_string()]).unwrap();
    assert_eq!(opt.units, Some(Units::Fahrenheit));

    let opt = Args::parse(&["--unit=C".to_string()]).unwrap();
    assert_eq!(opt.units, Some(Units::Celsius));
    let opt = Args::parse(&["-uC".to_string()]).unwrap();
    assert_eq!(opt.units, Some(Units::Celsius));
    let opt = Args::parse(&["-uc".to_string()]).unwrap();
    assert_eq!(opt.units, Some(Units::Celsius));
    let opt = Args::parse(&["--unit=F".to_string()]).unwrap();
    assert_eq!(opt.units, Some(Units::Fahrenheit));
    let opt = Args::parse(&["-uF".to_string()]).unwrap();
    assert_eq!(opt.units, Some(Units::Fahrenheit));
    let opt = Args::parse(&["-uf".to_string()]).unwrap();
    assert_eq!(opt.units, Some(Units::Fahrenheit));
}

#[test]
fn args_parse_timeouts() {
    let opt = Args::parse(&[]).unwrap();
    assert_eq!(opt.connect_timeout, None);

    let opt = Args::parse(&["--connect-timeout=123".to_string()]).unwrap();
    assert_eq!(opt.connect_timeout, Some(123));
    let opt = Args::parse(&["-c123".to_string()]).unwrap();
    assert_eq!(opt.connect_timeout, Some(123));

    assert_eq!(opt.timeout, None);
    let opt = Args::parse(&["--timeout=123".to_string()]).unwrap();
    assert_eq!(opt.timeout, Some(123));
    let opt = Args::parse(&["-t123".to_string()]).unwrap();
    assert_eq!(opt.timeout, Some(123));
}

#[test]
fn args_parse_query() {
    let opt = Args::parse(&[]).unwrap();
    assert_eq!(opt.query, None);

    let opt = Args::parse(&["".to_string()]).unwrap();
    assert_eq!(opt.query, Some("".to_string()));
    let opt = Args::parse(&["monteiro".to_string()]).unwrap();
    assert_eq!(opt.query, Some("monteiro".to_string()));
    let opt = Args::parse(&["joão pessoa".to_string()]).unwrap();
    assert_eq!(opt.query, Some("joão pessoa".to_string()));
    let opt = Args::parse(&["joão pessoa,paraíba".to_string()]).unwrap();
    assert_eq!(opt.query, Some("joão pessoa,paraíba".to_string()));
    let opt = Args::parse(&["joão pessoa,paraíba,brasil".to_string()]).unwrap();
    assert_eq!(opt.query, Some("joão pessoa,paraíba,brasil".to_string()));
}

#[test]
fn args_parse_location_provider() {
    let opt = Args::parse(&[]).unwrap();
    assert_eq!(opt.location_provider, None);

    let opt = Args::parse(&["-p-1".to_string()]).unwrap();
    assert_eq!(opt.location_provider, Some(-1));
    let opt = Args::parse(&["-p0".to_string()]).unwrap();
    assert_eq!(opt.location_provider, Some(0));
    let opt = Args::parse(&["-p3".to_string()]).unwrap();
    assert_eq!(opt.location_provider, Some(3));
    let opt = Args::parse(&["--location-provider=-1".to_string()]).unwrap();
    assert_eq!(opt.location_provider, Some(-1));
    let opt = Args::parse(&["--location-provider=0".to_string()]).unwrap();
    assert_eq!(opt.location_provider, Some(0));
    let opt = Args::parse(&["--location-provider=3".to_string()]).unwrap();
    assert_eq!(opt.location_provider, Some(3));
}

#[test]
fn args_parse_full_info() {
    let opt = Args::parse(&[]).unwrap();
    assert_eq!(opt.full_info, None);

    let opt = Args::parse(&["--full-info".to_string()]).unwrap();
    assert_eq!(opt.full_info, Some(true));
    let opt = Args::parse(&["-f".to_string()]).unwrap();
    assert_eq!(opt.full_info, Some(true));
}

#[test]
fn args_parse_silent() {
    let opt = Args::parse(&[]).unwrap();
    assert_eq!(opt.silent, None);

    let opt = Args::parse(&["--silent".to_string()]).unwrap();
    assert_eq!(opt.silent, Some(true));
    let opt = Args::parse(&["-s".to_string()]).unwrap();
    assert_eq!(opt.silent, Some(true));
}

#[test]
fn args_parse_version() {
    let opt = Args::parse(&[]).unwrap();
    assert_eq!(opt.version, None);

    let opt = Args::parse(&["--version".to_string()]).unwrap();
    assert_eq!(opt.version, Some("0.1.0".to_string()));
    let opt = Args::parse(&["-v".to_string()]).unwrap();
    assert_eq!(opt.version, Some(PROGRAM_VERSION.to_string()));
}

#[test]
fn args_parse_help() {
    let opt = Args::parse(&[]).unwrap();
    assert_eq!(opt.help, None);

    let help = "Usage: weather [options] [city name[,state code][,country code]]

Options:
    -m, --metric        Weather in metric units (compatibility)
    -i, --imperial      Weather in imperial units (compatibility)
    -u, --unit [C]elsius or [F]ahrenheit
                        Unit of measurement
    -c, --connect-timeout 5
                        Connect timeout (in seconds)
    -t, --timeout 30    Timeout (in seconds)
    -p, --location-provider 0 to 3
                        Location provider
    -f, --full-info     Full weather information
    -s, --silent        Silent mode
    -v, --version       Print program version
    -h, --help          Print this help menu
";
    let opt = Args::parse(&["--help".to_string()]).unwrap();
    assert_eq!(opt.help, Some(help.to_string()));
    let opt = Args::parse(&["-h".to_string()]).unwrap();
    assert_eq!(opt.help, Some(help.to_string()));
}

#[test]
fn metric_beats_imperial_in_any_order() {
    assert_eq!(parse(&["-m", "-i"]).units, Some(Units::Celsius));
    assert_eq!(parse(&["-i", "-m"]).units, Some(Units::Celsius));
    assert_eq!(parse(&["--imperial", "--metric", "-uF"]).units, Some(Units::Celsius));
    assert_eq!(parse(&["-mi"]).units, Some(Units::Celsius));
}

#[test]
fn imperial_beats_explicit_unit() {
    assert_eq!(parse(&["-i", "--unit=C"]).units, Some(Units::Fahrenheit));
    assert_eq!(parse(&["--unit=C", "-i"]).units, Some(Units::Fahrenheit));
}

#[test]
fn explicit_unit_ignores_case_and_rejects_others() {
    assert_eq!(parse(&["--unit=c"]).units, parse(&["--unit=C"]).units);
    assert_eq!(parse(&["-u", "f"]).units, Some(Units::Fahrenheit));
    assert_eq!(parse(&["--unit=K"]).units, None);
    assert_eq!(parse(&["--unit=Celsius"]).units, None);
}

#[test]
fn malformed_numbers_are_unspecified() {
    assert_eq!(parse(&["-cabc"]).connect_timeout, None);
    assert_eq!(parse(&["-c123"]).connect_timeout, parse(&["--connect-timeout=123"]).connect_timeout);
    assert_eq!(parse(&["-t-5"]).timeout, None);
    assert_eq!(parse(&["-t", "+7"]).timeout, Some(7));
    assert_eq!(parse(&["-pxyz"]).location_provider, None);
    assert_eq!(parse(&["-c18446744073709551616"]).connect_timeout, None);
    assert_eq!(parse(&["-c18446744073709551615"]).connect_timeout, Some(u64::MAX));
}

#[test]
fn query_is_first_positional_token() {
    let opt = parse(&["-s", "recife", "natal"]);
    assert_eq!(opt.query, Some("recife".to_string()));
    assert_eq!(opt.silent, Some(true));
    assert_eq!(opt.full_info, None);
}

#[test]
fn malformed_arguments_are_errors() {
    let unknown = Args::parse(&["-x".to_string()]);
    assert!(matches!(unknown, Err(ArgsError::GetOpts(getopts::Fail::UnrecognizedOption(_)))));
    let missing = Args::parse(&["-c".to_string()]);
    assert!(matches!(missing, Err(ArgsError::GetOpts(getopts::Fail::ArgumentMissing(_)))));
    let unexpected = Args::parse(&["--silent=yes".to_string()]);
    assert!(matches!(unexpected, Err(ArgsError::GetOpts(getopts::Fail::UnexpectedArgument(_)))));
    let twice = Args::parse(&["-m".to_string(), "-m".to_string()]);
    assert!(matches!(twice, Err(ArgsError::GetOpts(getopts::Fail::OptionDuplicated(_)))));
}

#[test]
fn resolve_reads_a_getopts_match() {
    let table = Args::new();
    let tokens = vec!["-uf".to_string(), "-t".to_string(), "30".to_string(), "lisboa".to_string()];
    let matches = table.parse(&tokens).unwrap();
    let opt = Args::resolve(&table, &matches);
    assert_eq!(opt.units, Some(Units::Fahrenheit));
    assert_eq!(opt.timeout, Some(30));
    assert_eq!(opt.query, Some("lisboa".to_string()));
    assert_eq!(opt.help, None);
}
