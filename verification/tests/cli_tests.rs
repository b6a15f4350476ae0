use pwnenv::cli::{Cli, SubCommand};

#[test]
fn cli_holds_one_subcommand() {
    let cli = Cli { sub_command: SubCommand::Init };
    assert_eq!(cli.sub_command, SubCommand::Init);
    assert_ne!(cli.sub_command, SubCommand::Enter);
    assert_ne!(cli.sub_command, SubCommand::Kill);
    let copy = cli;
    assert_eq!(copy, Cli { sub_command: SubCommand::Init });
}
