use apocalypse_contracts::{
    end_game, initialize_profile, kill_zombie, start_game, stored_profile, undelegate_game,
    CommitProfile, GameAction, GameError, Identity, InitializeProfile, Profile, SessionToken,
};

fn player() -> Identity {
    Identity::new([7u8; 32])
}

fn stranger() -> Identity {
    Identity::new([9u8; 32])
}

fn playing(points: u64) -> GameAction {
    GameAction {
        profile: Profile { authority: player(), points, game_active: true },
        signer: player(),
        session_token: None,
    }
}

fn idle(points: u64) -> GameAction {
    GameAction {
        profile: Profile { authority: player(), points, game_active: false },
        signer: player(),
        session_token: None,
    }
}

#[test]
fn profile_session_is_settled_with_its_score() {
    let mut init = InitializeProfile { profile: None, authority: player() };
    assert_eq!(initialize_profile(&mut init), Ok(()));
    let profile = init.profile.expect("a profile was created");
    assert_eq!(profile, Profile { authority: player(), points: 0, game_active: false });

    let mut ctx = GameAction { profile, signer: player(), session_token: None };
    assert_eq!(start_game(&mut ctx), Ok(()));
    assert!(ctx.profile.game_active);
    assert_eq!(kill_zombie(&mut ctx, 10), Ok(()));
    assert_eq!(kill_zombie(&mut ctx, 5), Ok(()));
    assert_eq!(ctx.profile.points, 15);
    assert_eq!(end_game(&mut ctx), Ok(()));
    assert!(!ctx.profile.game_active);
    assert_eq!(ctx.profile.points, 15);

    let committed = undelegate_game(&CommitProfile { payer: player(), profile: ctx.profile });
    assert_eq!(
        committed,
        Ok(Profile { authority: player(), points: 15, game_active: false })
    );
}

#[test]
fn new_profile_has_no_points_and_no_session() {
    let profile = Profile::new(player());
    assert_eq!(profile.authority, player());
    assert_eq!(profile.points, 0);
    assert!(!profile.game_active);
}

#[test]
fn initializing_again_keeps_the_profile_as_it_is() {
    let existing = Profile { authority: player(), points: 42, game_active: true };
    let mut init = InitializeProfile { profile: Some(existing), authority: player() };
    assert_eq!(initialize_profile(&mut init), Ok(()));
    assert_eq!(init.profile, Some(existing));
    assert_eq!(init.authority, player());

    assert_eq!(initialize_profile(&mut init), Ok(()));
    assert_eq!(init.profile, Some(existing));
}

#[test]
fn initializing_twice_from_nothing_creates_once() {
    let mut init = InitializeProfile { profile: None, authority: player() };
    assert_eq!(initialize_profile(&mut init), Ok(()));
    let mut ctx = GameAction {
        profile: init.profile.expect("a profile was created"),
        signer: player(),
        session_token: None,
    };
    assert_eq!(start_game(&mut ctx), Ok(()));
    assert_eq!(kill_zombie(&mut ctx, 3), Ok(()));

    let mut again = InitializeProfile { profile: Some(ctx.profile), authority: player() };
    assert_eq!(initialize_profile(&mut again), Ok(()));
    assert_eq!(
        again.profile,
        Some(Profile { authority: player(), points: 3, game_active: true })
    );
}

#[test]
fn kills_add_up() {
    let mut ctx = playing(0);
    let rewards: [u64; 5] = [1, 20, 300, 0, 4000];
    for reward in rewards {
        assert_eq!(kill_zombie(&mut ctx, reward), Ok(()));
    }
    assert_eq!(ctx.profile.points, 4321);
    assert!(ctx.profile.game_active);
    assert_eq!(ctx.profile.authority, player());
}

#[test]
fn score_stops_at_the_largest_value() {
    let mut ctx = playing(u64::MAX - 10);
    assert_eq!(kill_zombie(&mut ctx, 4), Ok(()));
    assert_eq!(ctx.profile.points, u64::MAX - 6);
    assert_eq!(kill_zombie(&mut ctx, 6), Ok(()));
    assert_eq!(ctx.profile.points, u64::MAX);
    assert_eq!(kill_zombie(&mut ctx, 1), Ok(()));
    assert_eq!(ctx.profile.points, u64::MAX);
    assert_eq!(kill_zombie(&mut ctx, u64::MAX), Ok(()));
    assert_eq!(ctx.profile.points, u64::MAX);
}

#[test]
fn score_clamps_when_one_reward_overshoots() {
    let mut ctx = playing(5);
    assert_eq!(kill_zombie(&mut ctx, u64::MAX - 4), Ok(()));
    assert_eq!(ctx.profile.points, u64::MAX);

    let mut ctx = playing(5);
    assert_eq!(kill_zombie(&mut ctx, u64::MAX - 5), Ok(()));
    assert_eq!(ctx.profile.points, u64::MAX);

    let mut ctx = playing(5);
    assert_eq!(kill_zombie(&mut ctx, u64::MAX - 6), Ok(()));
    assert_eq!(ctx.profile.points, u64::MAX - 1);
}

#[test]
fn second_start_is_rejected_and_changes_nothing() {
    let mut ctx = idle(12);
    assert_eq!(start_game(&mut ctx), Ok(()));
    let started = ctx;
    assert_eq!(start_game(&mut ctx), Err(GameError::GameAlreadyActive));
    assert_eq!(ctx, started);
    assert_eq!(start_game(&mut ctx), Err(GameError::GameAlreadyActive));
    assert_eq!(ctx, started);
}

#[test]
fn start_after_end_is_accepted() {
    let mut ctx = idle(12);
    assert_eq!(start_game(&mut ctx), Ok(()));
    assert_eq!(end_game(&mut ctx), Ok(()));
    assert_eq!(start_game(&mut ctx), Ok(()));
    assert!(ctx.profile.game_active);
    assert_eq!(ctx.profile.points, 12);
}

#[test]
fn kill_while_idle_is_rejected_and_keeps_the_score() {
    let mut ctx = idle(77);
    let before = ctx;
    assert_eq!(kill_zombie(&mut ctx, 5), Err(GameError::GameNotActive));
    assert_eq!(ctx, before);
    assert_eq!(ctx.profile.points, 77);
}

#[test]
fn end_while_idle_is_rejected() {
    let mut ctx = idle(77);
    let before = ctx;
    assert_eq!(end_game(&mut ctx), Err(GameError::GameNotActive));
    assert_eq!(ctx, before);
}

#[test]
fn end_keeps_the_score() {
    let mut ctx = playing(31);
    assert_eq!(end_game(&mut ctx), Ok(()));
    assert_eq!(ctx.profile, Profile { authority: player(), points: 31, game_active: false });
    assert_eq!(ctx.signer, player());
    assert_eq!(ctx.session_token, None);
}

#[test]
fn strangers_cannot_play_on_a_profile() {
    let mut ctx = idle(5);
    ctx.signer = stranger();
    let before = ctx;
    assert_eq!(start_game(&mut ctx), Err(GameError::InvalidAuth));
    assert_eq!(ctx, before);

    let mut ctx = playing(5);
    ctx.signer = stranger();
    let before = ctx;
    assert_eq!(kill_zombie(&mut ctx, 1), Err(GameError::InvalidAuth));
    assert_eq!(ctx, before);
    assert_eq!(end_game(&mut ctx), Err(GameError::InvalidAuth));
    assert_eq!(ctx, before);
}

#[test]
fn authorization_comes_before_the_state_of_the_profile() {
    let mut ctx = idle(5);
    ctx.signer = stranger();
    assert_eq!(kill_zombie(&mut ctx, 1), Err(GameError::InvalidAuth));
    assert_eq!(end_game(&mut ctx), Err(GameError::InvalidAuth));

    let mut ctx = playing(5);
    ctx.signer = stranger();
    assert_eq!(start_game(&mut ctx), Err(GameError::InvalidAuth));
}

#[test]
fn session_holder_plays_for_the_owner() {
    let mut ctx = idle(0);
    ctx.signer = stranger();
    ctx.session_token = Some(SessionToken { authority: player(), valid: true });
    assert_eq!(start_game(&mut ctx), Ok(()));
    assert_eq!(kill_zombie(&mut ctx, 8), Ok(()));
    assert_eq!(end_game(&mut ctx), Ok(()));
    assert_eq!(ctx.profile, Profile { authority: player(), points: 8, game_active: false });
    assert_eq!(ctx.signer, stranger());
    assert_eq!(
        ctx.session_token,
        Some(SessionToken { authority: player(), valid: true })
    );
}

#[test]
fn settlement_returns_the_profile_as_it_stands() {
    let ended = Profile { authority: player(), points: 15, game_active: false };
    assert_eq!(
        undelegate_game(&CommitProfile { payer: player(), profile: ended }),
        Ok(ended)
    );
}

#[test]
fn settlement_before_the_end_of_the_session_keeps_the_session_open() {
    let open = Profile { authority: player(), points: 15, game_active: true };
    let ctx = CommitProfile { payer: player(), profile: open };
    assert_eq!(undelegate_game(&ctx), Ok(open));
    assert_eq!(ctx.profile, open);
}

#[test]
fn round_trip_keeps_the_score() {
    let mut ctx = idle(100);
    assert_eq!(start_game(&mut ctx), Ok(()));
    assert_eq!(kill_zombie(&mut ctx, 10), Ok(()));
    assert_eq!(kill_zombie(&mut ctx, 5), Ok(()));
    assert_eq!(end_game(&mut ctx), Ok(()));
    let settled = undelegate_game(&CommitProfile { payer: player(), profile: ctx.profile })
        .expect("settlement of a profile is never turned down");
    assert_eq!(settled.points, 115);

    let mut again = GameAction { profile: settled, signer: player(), session_token: None };
    assert_eq!(start_game(&mut again), Ok(()));
    assert_eq!(kill_zombie(&mut again, 7), Ok(()));
    assert_eq!(end_game(&mut again), Ok(()));
    assert_eq!(
        again.profile,
        Profile { authority: player(), points: 122, game_active: false }
    );
}

#[test]
fn profile_steps_without_a_caller() {
    let mut profile = Profile::new(player());
    assert_eq!(profile.kill_zombie(1), Err(GameError::GameNotActive));
    assert_eq!(profile.end_game(), Err(GameError::GameNotActive));
    assert_eq!(profile.start_game(), Ok(()));
    assert_eq!(profile.start_game(), Err(GameError::GameAlreadyActive));
    assert_eq!(profile.kill_zombie(9), Ok(()));
    assert_eq!(profile.end_game(), Ok(()));
    assert_eq!(profile, Profile { authority: player(), points: 9, game_active: false });
}

#[test]
fn whatever_is_called_the_owner_stays_and_the_score_never_drops() {
    let mut ctx = idle(40);
    let mut lowest = ctx.profile.points;
    for round in 0..60u64 {
        let result = match round % 5 {
            0 => start_game(&mut ctx),
            1 => kill_zombie(&mut ctx, round * 1_000_003),
            2 => end_game(&mut ctx),
            3 => kill_zombie(&mut ctx, u64::MAX / 7),
            _ => undelegate_game(&CommitProfile { payer: player(), profile: ctx.profile })
                .map(|settled| ctx.profile = settled),
        };
        if round % 5 == 3 {
            assert_eq!(result, Err(GameError::GameNotActive));
        }
        assert_eq!(ctx.profile.authority, player());
        assert!(ctx.profile.points >= lowest);
        lowest = ctx.profile.points;
    }
    assert_eq!(ctx.profile.points, 40 + (1..60u64).step_by(5).map(|r| r * 1_000_003).sum::<u64>());
}

#[test]
fn account_that_names_nobody_holds_no_profile() {
    let blank = Profile { authority: Identity::null(), points: 0, game_active: false };
    assert_eq!(stored_profile(blank), None);
    let odd = Profile { authority: Identity::new([0u8; 32]), points: 9, game_active: true };
    assert_eq!(stored_profile(odd), None);
}

#[test]
fn account_that_names_an_owner_holds_its_profile() {
    let stored = Profile { authority: player(), points: 42, game_active: true };
    assert_eq!(stored_profile(stored), Some(stored));
    let mut bytes = [0u8; 32];
    bytes[31] = 1;
    let almost_nobody = Profile { authority: Identity::new(bytes), points: 0, game_active: false };
    assert_eq!(stored_profile(almost_nobody), Some(almost_nobody));
}

#[test]
fn profile_is_created_in_a_blank_account_and_kept_in_a_written_one() {
    let blank = Profile { authority: Identity::null(), points: 0, game_active: false };
    let mut init = InitializeProfile { profile: stored_profile(blank), authority: player() };
    assert_eq!(initialize_profile(&mut init), Ok(()));
    let created = init.profile.expect("a profile was created");
    assert_eq!(created, Profile { authority: player(), points: 0, game_active: false });

    let played = Profile { authority: player(), points: 77, game_active: false };
    let mut again = InitializeProfile { profile: stored_profile(played), authority: player() };
    assert_eq!(initialize_profile(&mut again), Ok(()));
    assert_eq!(again.profile, Some(played));
}
