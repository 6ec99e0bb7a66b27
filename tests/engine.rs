use gold_mine::achievement::{evaluate_all, Achievement, AchievementType, Metrics};
use gold_mine::catalog::GOLD_PER_SECOND;
use gold_mine::display::{format_number, format_rate, DisplayNumber, Magnitude};
use gold_mine::game::{GameState, Tab, BASE_CLICK_POWER, CLICK_COOLDOWN_MS, GOLD};
use gold_mine::session::{Action, App};
use gold_mine::upgrade::{Upgrade, UpgradeType};

fn pickaxe() -> Upgrade {
    Upgrade::new("Pickaxe", "Basic mining tool", 10 * GOLD, 115, 100, GOLD_PER_SECOND / 10, UpgradeType::Passive)
}

#[test]
fn cost_follows_multiplier_per_copy() {
    let mut u = pickaxe();
    assert_eq!(u.current_cost(), 10_000_000);
    u.owned = 1;
    assert_eq!(u.current_cost(), 11_500_000);
    u.owned = 2;
    assert_eq!(u.current_cost(), 13_225_000);
    u.owned = 3;
    assert_eq!(u.current_cost(), 15_208_750);
}

#[test]
fn cost_strictly_increasing() {
    let mut u = pickaxe();
    let mut prev = u.current_cost();
    for n in 1..200u64 {
        u.owned = n;
        let c = u.current_cost();
        assert!(c > prev || c == u64::MAX);
        prev = c;
    }
}

#[test]
fn cost_saturates_when_too_large() {
    let mut u = pickaxe();
    u.owned = 1_000;
    assert_eq!(u.exact_cost(), None);
    assert_eq!(u.current_cost(), u64::MAX);
    assert!(!u.can_afford(u64::MAX));
}

#[test]
fn repeated_purchase_spends_geometric_sum() {
    let mut u = pickaxe();
    let mut spent: u64 = 0;
    for _ in 0..3 {
        spent += u.purchase();
    }
    assert_eq!(u.owned, 3);
    // 10 * (1.15^3 - 1) / 0.15 = 34.725 gold
    assert_eq!(spent, 34_725_000);
}

#[test]
fn purchase_returns_cost_before_increment() {
    let mut u = pickaxe();
    u.owned = 1;
    assert_eq!(u.purchase(), 11_500_000);
    assert_eq!(u.owned, 2);
}

#[test]
fn can_afford_is_exact() {
    let u = pickaxe();
    assert!(u.can_afford(10_000_000));
    assert!(!u.can_afford(9_999_999));
}

#[test]
fn production_is_linear_in_owned() {
    let mut u = pickaxe();
    assert_eq!(u.current_production(), 0);
    u.owned = 5;
    assert_eq!(u.current_production(), 500);
    u.base_production = u64::MAX;
    assert_eq!(u.current_production(), u64::MAX);
}

#[test]
fn tick_without_production_leaves_gold() {
    let mut s = GameState::default();
    s.update(10_000);
    assert_eq!(s.gold, 0);
    assert_eq!(s.total_gold_earned, 0);
    assert_eq!(s.gold_per_second, 0);
    assert_eq!(s.click_power, BASE_CLICK_POWER);
    assert_eq!(s.last_update, 10_000);
}

#[test]
fn tick_with_five_pickaxes_over_two_seconds() {
    let mut s = GameState::default();
    let mut u = pickaxe();
    u.owned = 5;
    s.upgrades = vec![u];
    s.update(2_000);
    assert_eq!(s.gold, GOLD);
    assert_eq!(s.total_gold_earned, GOLD);
    assert_eq!(s.gold_per_second, 500);
}

#[test]
fn tick_recomputes_click_power() {
    let mut s = GameState::default();
    s.upgrades[6].owned = 2;
    s.update(0);
    assert_eq!(s.click_power, 3 * GOLD);
}

#[test]
fn tick_with_clock_going_back_earns_nothing() {
    let mut s = GameState::default();
    s.upgrades[0].owned = 1;
    s.last_update = 5_000;
    s.update(1_000);
    assert_eq!(s.gold, 0);
    assert_eq!(s.last_update, 1_000);
}

#[test]
fn buy_exact_balance_then_unaffordable() {
    let mut s = GameState::default();
    s.gold = 10 * GOLD;
    s.buy_selected();
    assert_eq!(s.gold, 0);
    assert_eq!(s.upgrades[0].owned, 1);
    assert_eq!(s.total_upgrades_purchased, 1);
    s.buy_selected();
    assert_eq!(s.gold, 0);
    assert_eq!(s.upgrades[0].owned, 1);
    assert_eq!(s.total_upgrades_purchased, 1);
}

#[test]
fn buy_on_click_tab_maps_to_master_list() {
    let mut s = GameState::default();
    s.gold = 1_000 * GOLD;
    s.switch_tab(Tab::Click);
    s.select_next();
    s.buy_selected();
    assert_eq!(s.upgrades[7].owned, 1);
    assert_eq!(s.upgrades[1].owned, 0);
    assert_eq!(s.gold, 900 * GOLD);
}

#[test]
fn buy_on_achievements_tab_does_nothing() {
    let mut s = GameState::default();
    s.gold = 1_000 * GOLD;
    s.switch_tab(Tab::Achievements);
    s.buy_selected();
    assert_eq!(s.gold, 1_000 * GOLD);
    assert_eq!(s.total_upgrades_purchased, 0);
}

#[test]
fn switch_tab_resets_selection_only_on_change() {
    let mut s = GameState::default();
    s.select_next();
    s.select_next();
    assert_eq!(s.selected_upgrade, 2);
    s.switch_tab(Tab::Passive);
    assert_eq!(s.selected_upgrade, 2);
    s.switch_tab(Tab::Click);
    assert_eq!(s.selected_upgrade, 0);
    assert_eq!(s.current_tab, Tab::Click);
}

#[test]
fn selection_is_clamped() {
    let mut s = GameState::default();
    s.select_previous();
    assert_eq!(s.selected_upgrade, 0);
    for _ in 0..20 {
        s.select_next();
    }
    assert_eq!(s.selected_upgrade, 5);
    s.switch_tab(Tab::Achievements);
    for _ in 0..20 {
        s.select_next();
    }
    assert_eq!(s.selected_upgrade, 7);
    s.select_previous();
    assert_eq!(s.selected_upgrade, 6);
}

#[test]
fn selection_on_empty_list_stays_zero() {
    let mut s = GameState::default();
    s.upgrades = Vec::new();
    s.select_next();
    assert_eq!(s.selected_upgrade, 0);
    s.buy_selected();
    assert_eq!(s.total_upgrades_purchased, 0);
}

#[test]
fn current_upgrades_follow_tab() {
    let mut s = GameState::default();
    let p = s.get_current_upgrades();
    assert_eq!(p.len(), 6);
    assert_eq!(p[0].name, "Pickaxe");
    s.switch_tab(Tab::Click);
    let c = s.get_current_upgrades();
    assert_eq!(c.len(), 5);
    assert_eq!(c[0].name, "Strong Arms");
    s.switch_tab(Tab::Achievements);
    assert!(s.get_current_upgrades().is_empty());
    assert_eq!(s.current_list_len(), 8);
}

#[test]
fn clicks_within_cooldown_count_once() {
    let mut s = GameState::default();
    s.click_for_gold(1_000);
    s.click_for_gold(1_000 + CLICK_COOLDOWN_MS - 1);
    assert_eq!(s.total_clicks, 1);
    assert_eq!(s.gold, BASE_CLICK_POWER);
    assert_eq!(s.total_gold_earned, BASE_CLICK_POWER);
}

#[test]
fn clicks_past_cooldown_count_twice() {
    let mut s = GameState::default();
    s.click_for_gold(1_000);
    s.click_for_gold(1_000 + CLICK_COOLDOWN_MS);
    assert_eq!(s.total_clicks, 2);
    assert_eq!(s.gold, 2 * BASE_CLICK_POWER);
    assert_eq!(s.last_click, Some(1_000 + CLICK_COOLDOWN_MS));
}

#[test]
fn first_click_at_time_zero_counts() {
    let mut s = GameState::default();
    s.click_for_gold(0);
    assert_eq!(s.total_clicks, 1);
}

#[test]
fn achievements_latch_after_metric_drops() {
    let mut s = GameState::default();
    s.total_gold_earned = 100 * GOLD;
    s.update(0);
    assert!(s.achievements[0].completed);
    assert!(!s.achievements[1].completed);
    s.gold = 10 * GOLD;
    s.buy_selected();
    s.total_gold_earned = 0;
    s.update(100);
    assert!(s.achievements[0].completed);
}

#[test]
fn achievement_kinds_watch_their_metric() {
    let m = Metrics {
        total_gold_earned: 0,
        gold_per_second: 10 * GOLD_PER_SECOND,
        total_clicks: 999,
        click_power: 50 * GOLD,
        total_upgrades_purchased: 50,
    };
    let mut list = vec![
        Achievement::new("a", "", AchievementType::TotalGold(1)),
        Achievement::new("b", "", AchievementType::GoldPerSecond(10 * GOLD_PER_SECOND)),
        Achievement::new("c", "", AchievementType::TotalClicks(1000)),
        Achievement::new("d", "", AchievementType::ClickPower(50 * GOLD)),
        Achievement::new("e", "", AchievementType::UpgradesPurchased(50)),
    ];
    evaluate_all(&mut list, &m);
    let done: Vec<bool> = list.iter().map(|a| a.completed).collect();
    assert_eq!(done, vec![false, true, false, true, true]);
    assert_eq!(list[2].target(), 1000);
    assert_eq!(list[2].achievement_type.current_value(&m), 999);
}

#[test]
fn gold_and_total_never_fall_except_purchase() {
    let mut app = App::new();
    let actions = [
        Action::Click,
        Action::MoveDown,
        Action::Buy,
        Action::SwitchTab(Tab::Click),
        Action::Click,
        Action::ToggleHelp,
        Action::MoveUp,
        Action::Buy,
    ];
    let mut now: u64 = 0;
    for round in 0..40u64 {
        for a in actions.iter() {
            let gold = app.game_state.gold;
            let total = app.game_state.total_gold_earned;
            app.on_action(*a, now);
            if *a != Action::Buy {
                assert!(app.game_state.gold >= gold);
            }
            assert!(app.game_state.total_gold_earned >= total);
            now += 137;
        }
        let total = app.game_state.total_gold_earned;
        app.on_tick(now + round);
        assert!(app.game_state.total_gold_earned >= total);
    }
    assert!(!app.should_quit);
    app.on_action(Action::Quit, now);
    assert!(app.should_quit);
}

#[test]
fn toggle_help_flips() {
    let mut app = App::new();
    app.on_action(Action::ToggleHelp, 0);
    assert!(app.game_state.show_help);
    app.on_action(Action::ToggleHelp, 0);
    assert!(!app.game_state.show_help);
}

#[test]
fn format_number_picks_scale() {
    assert_eq!(format_number(0), DisplayNumber { hundredths: 0, magnitude: Magnitude::Ones });
    assert_eq!(format_number(12_345_678), DisplayNumber { hundredths: 1_235, magnitude: Magnitude::Ones });
    assert_eq!(format_number(1_000 * GOLD), DisplayNumber { hundredths: 100, magnitude: Magnitude::Thousands });
    assert_eq!(format_number(2_500_000 * GOLD), DisplayNumber { hundredths: 250, magnitude: Magnitude::Millions });
    assert_eq!(format_number(999_994_999), DisplayNumber { hundredths: 99_999, magnitude: Magnitude::Ones });
}

#[test]
fn format_rate_shows_gold_per_second() {
    assert_eq!(format_rate(100), DisplayNumber { hundredths: 10, magnitude: Magnitude::Ones });
    assert_eq!(format_rate(u64::MAX).magnitude, Magnitude::Millions);
}

#[test]
fn small_cost_still_grows_each_copy() {
    let mut u = Upgrade::new("Pebble", "", 6, 115, 100, 1, UpgradeType::Passive);
    let mut costs = Vec::new();
    for n in 0..6u64 {
        u.owned = n;
        costs.push(u.current_cost());
    }
    // 6, 6.9, 7.935, ... each rounded up to a whole unit
    assert_eq!(costs, vec![6, 7, 9, 11, 13, 15]);
}

#[test]
fn cost_rounds_up_between_exact_bounds() {
    let mut u = pickaxe();
    u.owned = 4;
    // 10 * 1.15^4 = 17.4900625 gold
    assert_eq!(u.current_cost(), 17_490_063);
}

#[test]
fn new_game_holds_the_catalog() {
    let s = GameState::default();
    let names: Vec<&str> = s.upgrades.iter().map(|u| u.name).collect();
    assert_eq!(
        names,
        vec![
            "Pickaxe",
            "Shovel",
            "Drill",
            "Excavator",
            "Mine Shaft",
            "Gold Factory",
            "Strong Arms",
            "Steel Tools",
            "Power Gloves",
            "Hydraulic Hammer",
            "Diamond Drill Bit"
        ]
    );
    assert_eq!(s.upgrades[5].base_cost, 25_000 * GOLD);
    assert_eq!(s.upgrades[5].base_production, 100 * GOLD_PER_SECOND);
    assert_eq!(s.upgrades[10].cost_multiplier_num, 120);
    assert_eq!(s.upgrades[10].upgrade_type, UpgradeType::Click);
    assert_eq!(s.achievements.len(), 8);
    assert_eq!(s.achievements[2].achievement_type, AchievementType::TotalGold(1_000_000 * GOLD));
    assert_eq!(s.achievements[7].achievement_type, AchievementType::UpgradesPurchased(50));
    assert_eq!(s.current_list_len(), 6);
    assert_eq!(s.click_cooldown, CLICK_COOLDOWN_MS);
    assert_eq!(s.last_click, None);
}

#[test]
fn new_app_starts_a_new_game() {
    let app = App::new();
    let s = GameState::default();
    assert!(!app.should_quit);
    assert_eq!(app.game_state.gold, s.gold);
    assert_eq!(app.game_state.click_power, BASE_CLICK_POWER);
    assert_eq!(app.game_state.upgrades.len(), s.upgrades.len());
    assert_eq!(app.game_state.achievements.len(), s.achievements.len());
    assert_eq!(app.game_state.current_tab, Tab::Passive);
}

#[test]
fn buy_with_full_counter_does_nothing() {
    let mut s = GameState::default();
    s.gold = 10 * GOLD;
    s.total_upgrades_purchased = u64::MAX;
    s.buy_selected();
    assert_eq!(s.gold, 10 * GOLD);
    assert_eq!(s.upgrades[0].owned, 0);
}
