use crossroadsbot::board::{
    BoardAction, BoardEvent, BoardFlow, BoardMessage, BoardOutcome, ChannelInfo, SignupBoard,
    SignupBoardAction, CHECK_EMOJI, CROSS_EMOJI, MEMO_EMOJI, channel_name_for, decode_marker,
    encode_marker, parse_i32, state_on_board, strip_bars, u64_to_string,
};
use crossroadsbot::flows::Lookup;
use crossroadsbot::models::{Training, TrainingState};

fn training(id: i32, state: TrainingState) -> Training {
    Training {
        id,
        title: String::from("Beginner raid"),
        date: 1623067200,
        state,
        tier_id: None,
    }
}

#[test]
fn refresh_refuses_ineligible_states_without_touching_anything() {
    for state in [TrainingState::Created, TrainingState::Finished] {
        let mut board = SignupBoard::new();
        let (flow, action) = BoardFlow::start(7, 900);
        assert_eq!(action, BoardAction::LookupTraining { id: 7 });
        let (flow, action) =
            flow.advance(&mut board, BoardEvent::TrainingLookup(Lookup::Found(training(7, state))));
        assert_eq!(action, BoardAction::Finish(BoardOutcome::InvalidState));
        // nothing was posted, edited or cached
        assert_eq!(board.lookup(7), None);
        let _ = flow;
    }
}

#[test]
fn refresh_edits_the_message_carrying_the_marker() {
    let mut board = SignupBoard::new();
    let t = training(7, TrainingState::Open);
    let name = channel_name_for(t.date);

    let (flow, _) = BoardFlow::start(7, 900);
    let (flow, action) =
        flow.advance(&mut board, BoardEvent::TrainingLookup(Lookup::Found(t)));
    assert_eq!(action, BoardAction::LoadChannels);

    let channels = vec![
        ChannelInfo { id: 1, name: String::from("general"), category: Some(900) },
        ChannelInfo { id: 2, name: name.clone(), category: Some(111) }, // wrong category
        ChannelInfo { id: 3, name: name.clone(), category: Some(900) }, // the date channel
    ];
    let (flow, action) = flow.advance(&mut board, BoardEvent::ChannelsLoaded(channels));
    assert_eq!(action, BoardAction::LoadMessages { channel_id: 3 });

    let msgs = vec![
        BoardMessage { id: 40, description: None },
        BoardMessage { id: 41, description: Some(String::from("||8||")) },
        BoardMessage { id: 42, description: Some(String::from("||7||")) },
    ];
    let (flow, action) = flow.advance(&mut board, BoardEvent::MessagesLoaded(msgs));
    assert_eq!(
        action,
        BoardAction::EditMessage {
            channel_id: 3,
            message_id: 42,
            training_id: 7,
            marker: String::from("||7||"),
            with_buttons: true,
        }
    );

    let (_, action) = flow.advance(&mut board, BoardEvent::MessageUpdated(Lookup::Found(42)));
    assert_eq!(action, BoardAction::Finish(BoardOutcome::Updated { message_id: 42 }));
    assert_eq!(board.lookup(42), Some(7));
}

#[test]
fn refresh_posts_anew_and_creates_the_channel_when_missing() {
    let mut board = SignupBoard::new();
    let mut t = training(7, TrainingState::Closed);
    t.date = 0;
    let name = channel_name_for(0);
    assert_eq!(name, "thu-1-jan-1970");

    let (flow, _) = BoardFlow::start(7, 900);
    let (flow, _) = flow.advance(&mut board, BoardEvent::TrainingLookup(Lookup::Found(t)));
    // no channel of that name in the category: create it
    let (flow, action) = flow.advance(
        &mut board,
        BoardEvent::ChannelsLoaded(vec![ChannelInfo {
            id: 1,
            name: String::from("general"),
            category: Some(900),
        }]),
    );
    assert_eq!(action, BoardAction::CreateChannel { name: name.clone() });

    let (flow, action) = flow.advance(&mut board, BoardEvent::ChannelCreated(Lookup::Found(5)));
    assert_eq!(action, BoardAction::LoadMessages { channel_id: 5 });

    // fresh channel, no messages: post a new one, closed training has no buttons
    let (flow, action) = flow.advance(&mut board, BoardEvent::MessagesLoaded(vec![]));
    assert_eq!(
        action,
        BoardAction::PostMessage {
            channel_id: 5,
            training_id: 7,
            marker: String::from("||7||"),
            with_buttons: false,
        }
    );

    let (_, action) = flow.advance(&mut board, BoardEvent::MessageUpdated(Lookup::Found(77)));
    assert_eq!(action, BoardAction::Finish(BoardOutcome::Updated { message_id: 77 }));
    assert_eq!(board.lookup(77), Some(7));
}

#[test]
fn reactions_route_through_the_cache() {
    let mut board = SignupBoard::new();
    let t = training(7, TrainingState::Open);
    let (flow, _) = BoardFlow::start(7, 900);
    let (flow, _) = flow.advance(&mut board, BoardEvent::TrainingLookup(Lookup::Found(t)));
    let (flow, action) = flow.advance(&mut board, BoardEvent::ChannelsLoaded(vec![]));
    let name = match action {
        BoardAction::CreateChannel { name } => name,
        other => panic!("expected CreateChannel, got {:?}", other),
    };
    assert_eq!(name, channel_name_for(1623067200));
    let (flow, _) = flow.advance(&mut board, BoardEvent::ChannelCreated(Lookup::Found(5)));
    let (flow, _) = flow.advance(&mut board, BoardEvent::MessagesLoaded(vec![]));
    let (_, _) = flow.advance(&mut board, BoardEvent::MessageUpdated(Lookup::Found(42)));

    assert_eq!(board.on_reaction(42, CHECK_EMOJI), SignupBoardAction::JoinSignup(7));
    assert_eq!(board.on_reaction(42, MEMO_EMOJI), SignupBoardAction::EditSignup(7));
    assert_eq!(board.on_reaction(42, CROSS_EMOJI), SignupBoardAction::RemoveSignup(7));
    assert_eq!(board.on_reaction(42, 'x'), SignupBoardAction::NoAction);
    assert_eq!(board.on_reaction(999, CHECK_EMOJI), SignupBoardAction::Ignore);
}

#[test]
fn refresh_failure_paths_surface() {
    let mut board = SignupBoard::new();
    let (flow, _) = BoardFlow::start(7, 900);
    let (_, action) = flow.advance(&mut board, BoardEvent::TrainingLookup(Lookup::Missing));
    assert_eq!(
        action,
        BoardAction::Finish(BoardOutcome::Failure(String::from("Training not found")))
    );

    let (flow, _) = BoardFlow::start(7, 900);
    let (_, action) = flow.advance(
        &mut board,
        BoardEvent::TrainingLookup(Lookup::Failed(String::from("db down"))),
    );
    assert_eq!(action, BoardAction::Finish(BoardOutcome::Failure(String::from("db down"))));

    // a stray event ends the refresh with a failure
    let (flow, _) = BoardFlow::start(7, 900);
    let (_, action) = flow.advance(&mut board, BoardEvent::MessagesLoaded(vec![]));
    assert_eq!(
        action,
        BoardAction::Finish(BoardOutcome::Failure(String::from("unexpected flow event")))
    );
}

#[test]
fn eligible_states_are_open_closed_started() {
    assert!(!state_on_board(TrainingState::Created));
    assert!(state_on_board(TrainingState::Open));
    assert!(state_on_board(TrainingState::Closed));
    assert!(state_on_board(TrainingState::Started));
    assert!(!state_on_board(TrainingState::Finished));
}

#[test]
fn channel_names_match_known_dates() {
    assert_eq!(channel_name_for(1623067200), "mon-7-jun-2021");
    assert_eq!(channel_name_for(0), "thu-1-jan-1970");
    assert_eq!(channel_name_for(86399), "thu-1-jan-1970");
    assert_eq!(channel_name_for(-1), "wed-31-dec-1969");
    assert_eq!(channel_name_for(951826154), "tue-29-feb-2000");
    assert_eq!(channel_name_for(4107542400), "mon-1-mar-2100");
    assert_eq!(channel_name_for(-34560000), "wed-27-nov-1968");
    // years render zero-padded to four digits
    assert_eq!(channel_name_for(-60779036740), "sun-27-dec-0043");
    assert_eq!(channel_name_for(253402300799), "fri-31-dec-9999");
}

#[test]
fn markers_encode_and_decode() {
    assert_eq!(encode_marker(7), "||7||");
    assert_eq!(encode_marker(0), "||0||");
    assert_eq!(encode_marker(-12), "||-12||");
    assert_eq!(decode_marker("||7||"), Some(7));
    assert_eq!(decode_marker("||-12||"), Some(-12));
    assert_eq!(decode_marker("||x||"), None);
    assert_eq!(decode_marker(""), None);
    assert_eq!(decode_marker("7"), Some(7));
    assert_eq!(decode_marker(encode_marker(2147483647).as_str()), Some(2147483647));
}

#[test]
fn bars_strip_left_to_right() {
    assert_eq!(strip_bars("a||b"), "ab");
    assert_eq!(strip_bars("|||"), "|");
    assert_eq!(strip_bars("||||"), "");
    assert_eq!(strip_bars("no bars"), "no bars");
    assert_eq!(strip_bars(""), "");
}

#[test]
fn integers_parse_exactly() {
    assert_eq!(parse_i32("0"), Some(0));
    assert_eq!(parse_i32("+5"), Some(5));
    assert_eq!(parse_i32("-0"), Some(0));
    assert_eq!(parse_i32("2147483647"), Some(2147483647));
    assert_eq!(parse_i32("2147483648"), None);
    assert_eq!(parse_i32("-2147483648"), Some(-2147483648));
    assert_eq!(parse_i32("-2147483649"), None);
    assert_eq!(parse_i32(""), None);
    assert_eq!(parse_i32("-"), None);
    assert_eq!(parse_i32("+"), None);
    assert_eq!(parse_i32("12a"), None);
    assert_eq!(parse_i32(" 12"), None);
    assert_eq!(parse_i32("00042"), Some(42));
    assert_eq!(parse_i32("99999999999999999999"), None);
}

#[test]
fn numbers_render_in_decimal() {
    assert_eq!(u64_to_string(0), "0");
    assert_eq!(u64_to_string(7), "7");
    assert_eq!(u64_to_string(1970), "1970");
    assert_eq!(u64_to_string(18446744073709551615), "18446744073709551615");
}
