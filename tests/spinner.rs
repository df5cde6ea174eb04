use weather::spinner::{Spinner, SpinnerColor::{Black, Blue, Cyan, Green, Magenta, Red, White, Yellow}};

#[test]
fn spinner_colors() {
    assert_eq!(Black.name(), "black");
    assert_eq!(Red.name(), "red");
    assert_eq!(Green.name(), "green");
    assert_eq!(Yellow.name(), "yellow");
    assert_eq!(Blue.name(), "blue");
    assert_eq!(Magenta.name(), "magenta");
    assert_eq!(Cyan.name(), "cyan");
    assert_eq!(White.name(), "white");
}

#[test]
fn spinner_templates() {
    assert_eq!(Spinner::format_tpl(Red), "{spinner:.red} {msg}");
    assert_eq!(Spinner::format_tpl(Magenta), "{spinner:.magenta} {msg}");
}

#[test]
fn spinner_setters_in_both_modes() {
    let loud = Spinner::new().set_silent(false);
    loud.set_color(Cyan).set_message("fetching").print_message("line");
    loud.tick();
    let quiet = Spinner::new().set_silent(true);
    quiet.set_color(Blue).set_message("fetching").print_message("line");
    quiet.tick();
}

#[test]
fn spinner_clone_and_color_order() {
    let first = Spinner::new().set_silent(true);
    let second = first.clone();
    second.print_message("from the clone");
    assert!(Black < Red);
    assert!(Yellow < White);
}

#[test]
fn spinner_silence_switches_back_and_forth() {
    let spinner = Spinner::new().set_silent(true).set_silent(false);
    spinner.set_color(Green).print_message("visible");
    spinner.tick();
    spinner.clear();
    spinner.print_message("after clearing");
    let quiet = spinner.set_silent(true);
    quiet.tick();
    quiet.clear();
    let _ = format!("{:?}", quiet);
}
