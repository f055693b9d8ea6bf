use idle::economy::{Command, Idle, HISTORY_LEN, REGISTRY_LEN};
use idle::incrementor::{scale, Incrementor, UNIT};
use idle::shop::{SelectionError, Shop, ShopItem};

fn unlocked(increment_by: u64, max_clicks: u64) -> Incrementor {
    Incrementor {
        unlocked: true,
        increment_by,
        max_clicks,
        ..Incrementor::default()
    }
}

fn purchase(text: &str, price: u64, incrementor_index: usize) -> ShopItem {
    ShopItem::IncrementorPurchase {
        text: text.to_string(),
        price,
        incrementor_index,
    }
}

/// The starting state with incrementor `k` replaced by `inc`, and its shop offer replaced
/// by the one that matches its lock state.
fn set_incrementor(app: &mut Idle, k: usize, inc: Incrementor) {
    app.incrementors.list[k] = inc;
    let offer = if inc.unlocked {
        ShopItem::IncrementorUpgrade {
            text: format!("Upgrade {}", inc.name),
            price: scale(inc.price, 200),
            incrementor_index: k,
        }
    } else {
        purchase(inc.name, inc.price, k)
    };
    let pos = app
        .shop
        .items
        .iter()
        .position(|item| item.incrementor_index() == k)
        .unwrap();
    app.shop.items[pos] = offer;
}

/// The starting state with `total_clicks` to spend and incrementor 0 locked, offered for
/// purchase at `price`.
fn first_offer_for_sale(total_clicks: u64, price: u64) -> Idle {
    let mut app = Idle::new();
    app.total_clicks = total_clicks;
    app.all_time_total_clicks = total_clicks;
    set_incrementor(
        &mut app,
        0,
        Incrementor {
            price,
            ..Incrementor::default()
        },
    );
    app
}

fn offers_match_locks(app: &Idle) -> bool {
    (0..REGISTRY_LEN).all(|i| refs(&app.shop, i) == 1)
        && app
            .shop
            .items
            .iter()
            .all(|item| item.is_purchase() != app.incrementors.list[item.incrementor_index()].unlocked)
}

fn refs(shop: &Shop, index: usize) -> usize {
    shop.items
        .iter()
        .filter(|item| item.incrementor_index() == index)
        .count()
}

#[test]
fn two_ticks_bank_once() {
    let mut inc = unlocked(UNIT / 2, UNIT);
    assert_eq!(inc.tick(), 0);
    assert_eq!(inc.clicks, UNIT / 2);
    assert_eq!(inc.tick(), UNIT);
    assert_eq!(inc.clicks, 0);
    assert_eq!(inc.total_earned, UNIT);
    assert_eq!(inc.spare, 0);
}

#[test]
fn tick_keeps_overflow_in_spare() {
    let mut inc = unlocked(700_000, UNIT);
    assert_eq!(inc.tick(), 0);
    assert_eq!(inc.tick(), 1_400_000);
    assert_eq!(inc.spare, 400_000);
    assert_eq!(inc.total_earned, 1_400_000);
    assert_eq!(inc.clicks, 0);
}

#[test]
fn ticks_keep_clicks_below_capacity() {
    let mut inc = unlocked(300_000, UNIT);
    for _ in 0..100 {
        inc.tick();
        assert!(inc.clicks < inc.max_clicks);
    }
    let mut full = unlocked(1, UNIT);
    full.clicks = 5 * UNIT;
    full.tick();
    assert!(full.clicks < full.max_clicks);
}

#[test]
fn locked_tick_changes_nothing() {
    let mut inc = Incrementor::default();
    inc.clicks = 300;
    inc.spare = 7;
    inc.total_earned = 9;
    assert_eq!(inc.tick(), 0);
    assert!(!inc.unlocked);
    assert_eq!(inc.clicks, 300);
    assert_eq!(inc.spare, 7);
    assert_eq!(inc.total_earned, 9);
    assert_eq!(inc.increment_by, 2_000);
    assert_eq!(inc.max_clicks, UNIT);
    assert_eq!(inc.price, UNIT);
    assert_eq!(inc.price_mult, 140);
}

#[test]
fn earnings_never_decrease() {
    let mut inc = unlocked(400_000, UNIT);
    let mut last = inc.total_earned;
    for step in 0..60 {
        if step % 7 == 0 {
            inc.upgrade();
        } else {
            inc.tick();
        }
        assert!(inc.total_earned >= last);
        last = inc.total_earned;
    }
    assert!(last > 0);
}

#[test]
fn tick_saturates_at_the_top() {
    let mut inc = unlocked(u64::MAX, u64::MAX);
    inc.clicks = 5;
    inc.total_earned = u64::MAX - 1;
    assert_eq!(inc.tick(), u64::MAX);
    assert_eq!(inc.total_earned, u64::MAX);
    assert_eq!(inc.clicks, 0);
}

#[test]
fn default_incrementor() {
    let inc = Incrementor::default();
    assert_eq!(inc.name, "Incrementor");
    assert!(!inc.unlocked);
    assert_eq!(inc.increment_by, 2_000);
    assert_eq!(inc.max_clicks, UNIT);
    assert_eq!(inc.price, UNIT);
    assert_eq!(inc.price_mult, 140);
    assert_eq!(inc.clicks + inc.spare + inc.total_earned, 0);
}

#[test]
fn unlock_only_sets_the_flag() {
    let mut inc = Incrementor::default();
    inc.unlock();
    assert!(inc.unlocked);
    assert_eq!(inc.price, UNIT);
    assert_eq!(inc.increment_by, 2_000);
}

#[test]
fn upgrade_grows_rate_capacity_and_price() {
    let mut inc = unlocked(2_000, UNIT);
    inc.upgrade();
    assert_eq!(inc.increment_by, 2_500);
    assert_eq!(inc.max_clicks, 1_220_000);
    assert_eq!(inc.price, 1_400_000);
    inc.upgrade();
    assert_eq!(inc.increment_by, 3_125);
    assert_eq!(inc.max_clicks, 1_488_400);
    assert_eq!(inc.price, 1_960_000);
}

#[test]
fn scale_rounds_down_and_saturates() {
    assert_eq!(scale(UNIT, 122), 1_220_000);
    assert_eq!(scale(3, 125), 3);
    assert_eq!(scale(10, 125), 12);
    assert_eq!(scale(u64::MAX, 200), u64::MAX);
    assert_eq!(scale(u64::MAX, 100), u64::MAX);
    assert_eq!(scale(7, 0), 0);
}

#[test]
fn purchase_unlocks_and_offers_upgrade() {
    let mut app = first_offer_for_sale(10 * UNIT, 10 * UNIT);
    assert!(offers_match_locks(&app));
    assert_eq!(app.activate(), Ok(()));
    assert_eq!(app.total_clicks, 0);
    assert!(app.incrementors.list[0].unlocked);
    assert_eq!(app.shop.items.len(), REGISTRY_LEN);
    assert_eq!(refs(&app.shop, 0), 1);
    match app.shop.items.last().unwrap() {
        ShopItem::IncrementorUpgrade {
            text,
            price,
            incrementor_index,
        } => {
            assert_eq!(*price, 20 * UNIT);
            assert_eq!(*incrementor_index, 0);
            assert_eq!(text, "Upgrade Incrementor");
        }
        other => panic!("expected an upgrade offer, got {:?}", other),
    }
    assert_eq!(app.all_time_total_clicks, 10 * UNIT);
    assert!(offers_match_locks(&app));
}

#[test]
fn unaffordable_purchase_changes_nothing() {
    let mut app = first_offer_for_sale(5 * UNIT, 10 * UNIT);
    assert_eq!(app.activate(), Ok(()));
    assert_eq!(app.total_clicks, 5 * UNIT);
    assert!(!app.incrementors.list[0].unlocked);
    assert_eq!(app.shop.items.len(), REGISTRY_LEN);
    assert!(app.shop.items[0].is_purchase());
    assert_eq!(app.shop.items[0].price(), 10 * UNIT);
    assert_eq!(app.shop.items[0].incrementor_index(), 0);
    assert_eq!(app.shop.selected, Some(0));
}

#[test]
fn purchase_in_the_middle_moves_offer_to_the_end() {
    let mut app = Idle::new();
    app.total_clicks = 10 * UNIT;
    app.shop.selected = Some(1);
    assert_eq!(app.activate(), Ok(()));
    assert_eq!(app.total_clicks, 0);
    assert!(app.incrementors.list[1].unlocked);
    let order: Vec<usize> = app.shop.items.iter().map(|i| i.incrementor_index()).collect();
    assert_eq!(order, vec![0, 2, 3, 4, 1]);
    assert!(!app.shop.items[4].is_purchase());
    assert_eq!(app.shop.items[4].price(), 20 * UNIT);
    assert_eq!(app.shop.selected, Some(1));
    for i in 0..REGISTRY_LEN {
        assert_eq!(refs(&app.shop, i), 1);
    }
}

#[test]
fn each_index_has_one_item_throughout() {
    let mut app = Idle::new();
    app.total_clicks = 10_000 * UNIT;
    let commands = [
        Command::Activate,
        Command::NavigateDown,
        Command::Activate,
        Command::NavigateDown,
        Command::NavigateDown,
        Command::Activate,
        Command::NavigateUp,
        Command::Activate,
        Command::Activate,
    ];
    for command in commands {
        assert_eq!(app.handle_command(command), Ok(true));
        app.on_tick();
        assert!(offers_match_locks(&app));
    }
}

#[test]
fn upgrade_offer_raises_its_price_in_place() {
    let mut app = Idle::new();
    app.total_clicks = 100 * UNIT;
    assert_eq!(app.activate(), Ok(()));
    let inc = app.incrementors.list[0];
    assert_eq!(inc.increment_by, 2_500);
    assert_eq!(inc.max_clicks, 1_220_000);
    assert_eq!(inc.price, 1_400_000);
    assert_eq!(app.total_clicks, 100 * UNIT - 2 * UNIT);
    match &app.shop.items[0] {
        ShopItem::IncrementorUpgrade { text, price, .. } => {
            assert_eq!(*price, 2_800_000);
            assert_eq!(text, "Upgrade Incrementor");
        }
        other => panic!("expected an upgrade offer, got {:?}", other),
    }
    assert!(offers_match_locks(&app));
}

#[test]
fn activate_without_selection_fails() {
    let mut unset = Idle::new();
    unset.shop.selected = None;
    assert_eq!(unset.activate(), Err(SelectionError::NotFound));
    assert_eq!(unset.total_clicks, UNIT);
    assert_eq!(unset.handle_command(Command::Activate), Err(SelectionError::NotFound));
    let mut past_end = Idle::new();
    past_end.shop.selected = Some(REGISTRY_LEN);
    assert_eq!(past_end.activate(), Err(SelectionError::NotFound));
    assert_eq!(past_end.total_clicks, UNIT);
    assert_eq!(past_end.incrementors.list[0].increment_by, 2_000);
}

#[test]
fn quit_changes_nothing() {
    let mut app = Idle::new();
    assert_eq!(app.handle_command(Command::Quit), Ok(false));
    assert_eq!(app.total_clicks, UNIT);
    assert_eq!(app.shop.selected, Some(0));
}

#[test]
fn navigation_stops_at_both_ends() {
    let mut app = Idle::new();
    assert_eq!(app.handle_command(Command::NavigateUp), Ok(true));
    assert_eq!(app.shop.selected, Some(0));
    for _ in 0..10 {
        app.handle_command(Command::NavigateDown).unwrap();
    }
    assert_eq!(app.shop.selected, Some(REGISTRY_LEN - 1));
    app.shop.prev();
    assert_eq!(app.shop.selected, Some(REGISTRY_LEN - 2));
}

#[test]
fn navigation_on_empty_shop_is_a_no_op() {
    let mut shop = Shop::default();
    shop.next();
    shop.prev();
    assert_eq!(shop.selected, None);
    assert!(shop.items.is_empty());
    shop.selected = Some(0);
    shop.next();
    shop.prev();
    assert_eq!(shop.selected, Some(0));
    assert_eq!(shop.get_selected().err(), Some(SelectionError::NotFound));
}

#[test]
fn selection_gives_index_and_item() {
    let mut shop = Shop {
        items: vec![purchase("a", 3, 0), purchase("b", 4, 1)],
        selected: Some(1),
    };
    assert_eq!(shop.get_selected().unwrap().price(), 4);
    {
        let (i, item) = shop.get_mut_selected_with_index().unwrap();
        assert_eq!(i, 1);
        if let ShopItem::IncrementorPurchase { price, .. } = item {
            *price = 9;
        }
    }
    assert_eq!(shop.items[1].price(), 9);
    shop.selected = Some(2);
    assert!(shop.get_mut_selected_with_index().is_err());
}

#[test]
fn starting_state() {
    let app = Idle::new();
    assert_eq!(app.total_clicks, UNIT);
    assert_eq!(app.all_time_total_clicks, UNIT);
    assert_eq!(app.shop.items.len(), REGISTRY_LEN);
    assert_eq!(app.shop.selected, Some(0));
    let names: Vec<&str> = app.incrementors.list.iter().map(|i| i.name).collect();
    assert_eq!(
        names,
        vec![
            "Incrementor",
            "Better Incrementor",
            "Improved Incrementor",
            "Super Incrementor",
            "God Mode."
        ]
    );
    let prices: Vec<u64> = app.incrementors.list.iter().map(|i| i.price).collect();
    assert_eq!(prices, vec![UNIT, 10 * UNIT, 100 * UNIT, 250 * UNIT, 1000 * UNIT]);
    assert!(app.incrementors.list[0].unlocked);
    assert!(app.incrementors.list[1..].iter().all(|i| !i.unlocked));
    match &app.shop.items[0] {
        ShopItem::IncrementorUpgrade {
            text,
            price,
            incrementor_index,
        } => {
            assert_eq!(text, "Upgrade Incrementor");
            assert_eq!(*price, 2 * UNIT);
            assert_eq!(*incrementor_index, 0);
        }
        other => panic!("expected an upgrade offer, got {:?}", other),
    }
    for (k, item) in app.shop.items.iter().enumerate().skip(1) {
        assert!(item.is_purchase());
        assert_eq!(item.incrementor_index(), k);
        assert_eq!(item.price(), app.incrementors.list[k].price);
    }
    assert!(offers_match_locks(&app));
}

#[test]
fn on_tick_banks_into_currency_and_history() {
    let mut app = Idle::new();
    set_incrementor(&mut app, 0, unlocked(1_500_000, 1_500_000));
    set_incrementor(&mut app, 1, unlocked(1_400_000, 1_400_000));
    set_incrementor(&mut app, 2, unlocked(1, UNIT));
    assert!(offers_match_locks(&app));
    app.set_sparkline_max_length(10);
    app.on_tick();
    assert_eq!(app.total_clicks, UNIT + 2_900_000);
    assert_eq!(app.all_time_total_clicks, UNIT + 2_900_000);
    assert_eq!(app.sparkline_data, vec![3]);
    assert_eq!(app.graph_data, vec![UNIT + 2_900_000]);
    assert_eq!(app.incrementors.list[2].clicks, 1);
    assert_eq!(app.incrementors.list[3].clicks, 0);
}

#[test]
fn on_tick_rounds_half_up() {
    let mut app = Idle::new();
    app.set_sparkline_max_length(5);
    set_incrementor(&mut app, 0, unlocked(1_499_999, 1_499_999));
    app.on_tick();
    set_incrementor(&mut app, 0, unlocked(UNIT / 2, UNIT / 2));
    app.on_tick();
    set_incrementor(&mut app, 0, unlocked(1, UNIT));
    app.on_tick();
    assert_eq!(app.sparkline_data, vec![1, 1, 0]);
}

#[test]
fn history_keeps_the_last_thousand() {
    let mut app = Idle::new();
    app.set_sparkline_max_length(3);
    for _ in 0..HISTORY_LEN + 5 {
        app.on_tick();
        assert!(app.graph_data.len() <= HISTORY_LEN);
        assert!(app.sparkline_data.len() <= 3);
    }
    assert_eq!(app.graph_data.len(), HISTORY_LEN);
    assert_eq!(*app.graph_data.last().unwrap(), app.total_clicks);
    assert_eq!(app.sparkline_data.len(), 3);
}

#[test]
fn shrinking_width_drops_oldest_totals() {
    let mut app = Idle::new();
    app.set_sparkline_max_length(4);
    for k in 1..=4u64 {
        set_incrementor(&mut app, 0, unlocked(k * UNIT, k * UNIT));
        app.on_tick();
    }
    assert_eq!(app.sparkline_data, vec![1, 2, 3, 4]);
    app.set_sparkline_max_length(2);
    assert_eq!(app.sparkline_max_length, 2);
    assert_eq!(app.sparkline_data, vec![3, 4]);
    app.set_sparkline_max_length(0);
    assert!(app.sparkline_data.is_empty());
    app.on_tick();
    assert!(app.sparkline_data.is_empty());
}
