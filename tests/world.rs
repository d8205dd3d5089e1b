use rogue_core::{CellContent, Effect, Engine, GridPoint, Notice, PlayerCore, Stats};

fn player_at(x: i32, y: i32) -> PlayerCore {
    PlayerCore::new(x, y, "@", "#ff0")
}

fn stats(hitpoints: i32, moves: i32) -> Effect {
    Effect::Stats(Stats { hitpoints, max_hitpoints: 100, moves })
}

#[test]
fn undug_cells_are_not_free() {
    let mut e = Engine::new();
    assert!(!e.free_cell(0, 0));
    assert!(!e.free_cell(-7, 42));
    e.on_dig(1, 1, 0);
    e.place_box(2, 2);
    assert!(!e.free_cell(1, 2));
    assert!(!e.free_cell(i32::MIN, i32::MAX));
}

#[test]
fn dig_with_zero_opens_floor() {
    let mut e = Engine::new();
    e.on_dig(4, -3, 0);
    assert!(e.free_cell(4, -3));
    let mut fx = Vec::new();
    e.draw_map(&mut fx);
    assert_eq!(fx, vec![Effect::Draw { x: 4, y: -3, glyph: CellContent::Floor }]);
}

#[test]
fn dig_with_other_value_is_ignored() {
    let mut e = Engine::new();
    e.on_dig(3, 3, 1);
    e.on_dig(3, 3, -1);
    assert!(!e.free_cell(3, 3));
    let mut fx = Vec::new();
    e.draw_map(&mut fx);
    assert!(fx.is_empty());
}

#[test]
fn box_opens_once() {
    let mut e = Engine::new();
    let mut pc = player_at(0, 0);
    e.place_box(6, 7);
    assert!(e.free_cell(6, 7));
    let mut fx = Vec::new();
    e.open_box(&mut pc, 6, 7, &mut fx);
    // no prize is marked: no message
    assert!(fx.is_empty());
    assert!(e.free_cell(6, 7));
    e.open_box(&mut pc, 6, 7, &mut fx);
    assert_eq!(fx, vec![Effect::Notify(Notice::NoPrizeBox)]);
    let mut drawn = Vec::new();
    e.draw_map(&mut drawn);
    assert_eq!(drawn, vec![Effect::Draw { x: 6, y: 7, glyph: CellContent::Floor }]);
    assert_eq!(pc.stats(), Stats { hitpoints: 100, max_hitpoints: 100, moves: 0 });
}

#[test]
fn mark_on_non_box_keeps_prize() {
    let mut e = Engine::new();
    let mut pc = player_at(0, 0);
    e.on_dig(1, 1, 0);
    e.mark_wasmprize(1, 1);
    e.mark_wasmprize(8, 8);
    e.place_box(2, 2);
    // still no prize: opening the box shows no message
    let mut fx = Vec::new();
    e.open_box(&mut pc, 2, 2, &mut fx);
    assert!(fx.is_empty());
    assert_eq!(pc.stats().hitpoints, 100);
}

#[test]
fn mark_on_floor_keeps_earlier_prize() {
    let mut e = Engine::new();
    let mut pc = player_at(0, 0);
    e.place_box(1, 1);
    e.mark_wasmprize(1, 1);
    e.on_dig(3, 3, 0);
    e.mark_wasmprize(3, 3);
    let mut fx = Vec::new();
    e.open_box(&mut pc, 1, 1, &mut fx);
    assert_eq!(fx, vec![Effect::Notify(Notice::ModuleFound)]);
}

#[test]
fn second_mark_replaces_prize() {
    let mut e = Engine::new();
    let mut pc = player_at(0, 0);
    e.place_box(1, 1);
    e.place_box(2, 2);
    e.mark_wasmprize(1, 1);
    e.mark_wasmprize(2, 2);
    let mut fx = Vec::new();
    e.open_box(&mut pc, 2, 2, &mut fx);
    e.open_box(&mut pc, 1, 1, &mut fx);
    assert_eq!(
        fx,
        vec![Effect::Notify(Notice::ModuleFound), Effect::Notify(Notice::BoobyTrap), stats(70, 0)]
    );
}

#[test]
fn scenario_dig_then_free() {
    let mut e = Engine::new();
    e.on_dig(2, 3, 0);
    assert!(e.free_cell(2, 3));
}

#[test]
fn scenario_prize_found() {
    let mut e = Engine::new();
    let mut pc = player_at(0, 0);
    e.place_box(5, 5);
    e.mark_wasmprize(5, 5);
    let mut fx = Vec::new();
    e.open_box(&mut pc, 5, 5, &mut fx);
    assert_eq!(fx, vec![Effect::Notify(Notice::ModuleFound)]);
    assert_eq!(pc.stats().hitpoints, 100);
    let mut drawn = Vec::new();
    e.draw_map(&mut drawn);
    assert_eq!(drawn, vec![Effect::Draw { x: 5, y: 5, glyph: CellContent::Floor }]);
}

#[test]
fn scenario_booby_trap() {
    let mut e = Engine::new();
    let mut pc = player_at(0, 0);
    e.place_box(1, 1);
    e.place_box(2, 2);
    e.mark_wasmprize(1, 1);
    let mut fx = Vec::new();
    e.open_box(&mut pc, 2, 2, &mut fx);
    assert_eq!(fx, vec![Effect::Notify(Notice::BoobyTrap), stats(70, 0)]);
    assert_eq!(pc.stats().hitpoints, 70);
    assert_eq!(pc.stats().moves, 0);
    let mut drawn = Vec::new();
    e.draw_map(&mut drawn);
    assert_eq!(
        drawn,
        vec![
            Effect::Draw { x: 1, y: 1, glyph: CellContent::Box },
            Effect::Draw { x: 2, y: 2, glyph: CellContent::Floor },
        ]
    );
}

#[test]
fn scenario_no_box_on_undiscovered_cell() {
    let mut e = Engine::new();
    let mut pc = player_at(0, 0);
    e.place_box(1, 1);
    let mut fx = Vec::new();
    e.open_box(&mut pc, 9, 9, &mut fx);
    assert_eq!(fx, vec![Effect::Notify(Notice::NoPrizeBox)]);
    assert!(!e.free_cell(9, 9));
    assert_eq!(pc.stats(), Stats { hitpoints: 100, max_hitpoints: 100, moves: 0 });
    let mut drawn = Vec::new();
    e.draw_map(&mut drawn);
    assert_eq!(drawn, vec![Effect::Draw { x: 1, y: 1, glyph: CellContent::Box }]);
}

#[test]
fn open_floor_reports_no_box() {
    let mut e = Engine::new();
    let mut pc = player_at(0, 0);
    e.on_dig(4, 4, 0);
    let mut fx = Vec::new();
    e.open_box(&mut pc, 4, 4, &mut fx);
    assert_eq!(fx, vec![Effect::Notify(Notice::NoPrizeBox)]);
    assert!(e.free_cell(4, 4));
}

#[test]
fn scenario_move_restores_vacated_cell() {
    let mut e = Engine::new();
    let mut pc = player_at(0, 0);
    e.on_dig(0, 0, 0);
    let mut fx = Vec::new();
    e.move_player(&mut pc, 1, 1, &mut fx);
    assert_eq!(
        fx,
        vec![
            Effect::Draw { x: 0, y: 0, glyph: CellContent::Floor },
            Effect::DrawPlayer { x: 1, y: 1 },
            stats(100, 1),
        ]
    );
    assert_eq!((pc.x(), pc.y()), (1, 1));
    assert_eq!(pc.position(), GridPoint::new(1, 1));
    assert_eq!(pc.stats().moves, 1);
}

#[test]
fn move_from_unknown_cell_draws_nothing_there() {
    let mut e = Engine::new();
    let mut pc = player_at(5, 5);
    let mut fx = Vec::new();
    e.move_player(&mut pc, 5, 6, &mut fx);
    e.move_player(&mut pc, 5, 7, &mut fx);
    assert_eq!(
        fx,
        vec![
            Effect::DrawPlayer { x: 5, y: 6 },
            stats(100, 1),
            Effect::DrawPlayer { x: 5, y: 7 },
            stats(100, 2),
        ]
    );
}

#[test]
fn damage_accumulates() {
    let mut pc = player_at(0, 0);
    let mut fx = Vec::new();
    assert_eq!(pc.take_damage(12, &mut fx), 88);
    assert_eq!(pc.take_damage(40, &mut fx), 48);
    assert_eq!(fx, vec![stats(88, 0), stats(48, 0)]);
}

#[test]
fn damage_may_go_negative() {
    let mut pc = player_at(0, 0);
    let mut fx = Vec::new();
    assert_eq!(pc.take_damage(150, &mut fx), -50);
    assert_eq!(pc.take_damage(-20, &mut fx), -30);
    assert_eq!(fx, vec![stats(-50, 0), stats(-30, 0)]);
}

#[test]
fn new_player_state() {
    let pc = PlayerCore::new(-2, 9, "@", "#ff0");
    assert_eq!(pc.x(), -2);
    assert_eq!(pc.y(), 9);
    assert_eq!(pc.icon(), "@");
    assert_eq!(pc.color(), "#ff0");
    assert_eq!(pc.stats(), Stats { hitpoints: 100, max_hitpoints: 100, moves: 0 });
    let mut fx = Vec::new();
    pc.draw(&mut fx);
    pc.emit_stats(&mut fx);
    assert_eq!(fx, vec![Effect::DrawPlayer { x: -2, y: 9 }, stats(100, 0)]);
}

#[test]
fn place_box_overwrites_floor_and_keeps_order() {
    let mut e = Engine::new();
    e.on_dig(1, 0, 0);
    e.on_dig(2, 0, 0);
    e.place_box(1, 0);
    e.on_dig(0, 0, 0);
    let mut fx = Vec::new();
    e.draw_map(&mut fx);
    assert_eq!(
        fx,
        vec![
            Effect::Draw { x: 1, y: 0, glyph: CellContent::Box },
            Effect::Draw { x: 2, y: 0, glyph: CellContent::Floor },
            Effect::Draw { x: 0, y: 0, glyph: CellContent::Floor },
        ]
    );
}

#[test]
fn dig_over_box_turns_it_to_floor() {
    let mut e = Engine::new();
    let mut pc = player_at(0, 0);
    e.place_box(3, 3);
    e.on_dig(3, 3, 0);
    let mut fx = Vec::new();
    e.open_box(&mut pc, 3, 3, &mut fx);
    assert_eq!(fx, vec![Effect::Notify(Notice::NoPrizeBox)]);
}

#[test]
fn glyphs_and_messages() {
    assert_eq!(CellContent::Floor.glyph(), ".");
    assert_eq!(CellContent::Box.glyph(), "*");
    assert_eq!(Notice::NoPrizeBox.message(), "There is no prize box here.");
    assert_eq!(
        Notice::ModuleFound.message(),
        "Congratulations! You've found the WebAssembly Module!"
    );
    assert_eq!(Notice::BoobyTrap.message(), "Woops! This was booby trap!");
}

#[test]
fn trap_query() {
    let mut e = Engine::new();
    e.place_box(1, 1);
    e.place_box(2, 2);
    assert!(!e.is_trap(2, 2));
    e.mark_wasmprize(1, 1);
    assert!(e.is_trap(2, 2));
    assert!(!e.is_trap(1, 1));
    assert!(!e.is_trap(3, 3));
}
