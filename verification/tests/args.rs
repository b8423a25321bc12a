use omni::args::{
    AddCommentCommand, BitwardenCommand, BitwardenSubcommand, CaseCommand, CaseSubcommand,
    CompleteTaskCommand, CreateCommand, EntityType, EpicorCommand, EpicorSubcommand, GetCommand,
    GetCommentSummaryCommand, GetStatusCommand, OmniArgs, SetupCommand, UpdateQuoteCommand,
    VaultItemType,
};
use omni::quantity::Quantity;

#[test]
fn a_get_is_told_apart_from_the_other_vault_commands() {
    let args = OmniArgs {
        entity_type: EntityType::Bitwarden(BitwardenCommand {
            subcommand: BitwardenSubcommand::Get(GetCommand {
                item_type: VaultItemType::Password,
                name: "CAEL10".to_string(),
            }),
        }),
    };
    match &args.entity_type {
        EntityType::Bitwarden(command) => match &command.subcommand {
            BitwardenSubcommand::Get(get) => {
                assert_eq!(get.item_type, VaultItemType::Password);
                assert_eq!(get.name, "CAEL10");
            }
            other => panic!("{:?} is no get", other),
        },
        other => panic!("{:?} is no vault command", other),
    }
    assert_ne!(
        BitwardenSubcommand::List,
        BitwardenSubcommand::Create(CreateCommand {
            name: "n".to_string(),
            username: "u".to_string(),
            password: "p".to_string(),
            notes: String::new(),
        })
    );
}

#[test]
fn the_case_commands_hold_their_values() {
    let complete = CaseSubcommand::CompleteTask(CompleteTaskCommand {
        case_number: 1,
        assign_to: "Ann".to_string(),
        comment: Some("not sent".to_string()),
    });
    let comment = CaseSubcommand::AddComment(AddCommentCommand {
        case_number: 2,
        comment: "c".to_string(),
    });
    let status = CaseSubcommand::GetStatus(GetStatusCommand { case_number: 3 });
    let summary = CaseSubcommand::GetCommentSummary(GetCommentSummaryCommand { case_number: 4 });
    let quote = CaseSubcommand::UpdateQuote(UpdateQuoteCommand {
        case_number: 5,
        new_quantity: Quantity::parse("7.5").unwrap(),
    });
    let all = vec![complete, comment, status, summary, quote];
    for (at, subcommand) in all.iter().enumerate() {
        let args = OmniArgs {
            entity_type: EntityType::Epicor(EpicorCommand {
                subcommand: EpicorSubcommand::Case(CaseCommand { subcommand: subcommand.clone() }),
            }),
        };
        assert_eq!(args.clone(), args);
        for (other_at, other) in all.iter().enumerate() {
            assert_eq!(subcommand == other, at == other_at);
        }
    }
}

#[test]
fn a_setup_may_leave_every_value_out() {
    let setup = SetupCommand {
        bw_client_id: None,
        bw_client_secret: None,
        bw_master_password: None,
        epicor_base_url: None,
        epicor_api_key: None,
        epicor_username: None,
        epicor_password: None,
    };
    let args = OmniArgs { entity_type: EntityType::Setup(setup.clone()) };
    assert_eq!(args.entity_type, EntityType::Setup(setup));
}
