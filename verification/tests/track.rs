use draw_lr::Coordinates;
use draw_lr::Game;
use draw_lr::Line;
use draw_lr::Rider;

fn sample_line() -> Line {
    Line {
        id: None,
        kind: 2,
        x1: -1_500_000,
        y1: 250_000,
        x2: 0,
        y2: 7_000_000,
        flipped: true,
        left_extended: false,
        right_extended: true,
    }
}

#[test]
fn new_game_has_single_base_layer_and_empty_collections() {
    let g = Game::new();
    assert_eq!(g.label, "Track created by lr-rust");
    assert_eq!(g.creator, "lr-rust");
    assert_eq!(g.description, "");
    assert_eq!(g.duration, 120);
    assert_eq!(g.version.0, "6.2");
    assert!(g.audio.is_none());
    assert_eq!(g.layers.len(), 1);
    assert_eq!(g.layers[0].id, 0);
    assert_eq!(g.layers[0].name, "Base Layer");
    assert!(g.layers[0].visible);
    assert!(g.layers[0].editable);
    assert!(g.riders.is_empty());
    assert!(g.lines.is_empty());
}

#[test]
fn new_game_serializes_with_one_layer_and_empty_arrays() {
    let g = Game::new();
    let s = g.construct_game();
    let expected = "{\"label\":\"Track created by lr-rust\",\"creator\":\"lr-rust\",\"description\":\"\",\"duration\":120,\"version\":\"6.2\",\"audio\":null,\"startPosition\":{\"x\":0.000000,\"y\":0.000000},\"riders\":[],\"layers\":[{\"id\":0,\"name\":\"Base Layer\",\"visible\":true,\"editable\":true}],\"lines\":[]}";
    assert_eq!(s, expected);
}

#[test]
fn add_line_assigns_sequential_one_based_ids() {
    let mut g = Game::new();
    let l = sample_line();
    g.add_line(&l);
    g.add_line(&l);
    g.add_line(&l);
    assert_eq!(g.lines.len(), 3);
    for (k, line) in g.lines.iter().enumerate() {
        assert_eq!(line.id, Some(k + 1));
    }
}

#[test]
fn add_lines_preserves_order_and_continues_ids() {
    let mut g = Game::new();
    let mut batch = Vec::new();
    for kind in [5usize, 6, 7] {
        let mut l = sample_line();
        l.kind = kind;
        batch.push(l);
    }
    g.add_line(&sample_line());
    g.add_lines(&batch);
    assert_eq!(g.lines.len(), 4);
    assert_eq!(g.lines[0].id, Some(1));
    assert_eq!(g.lines[1].id, Some(2));
    assert_eq!(g.lines[1].kind, 5);
    assert_eq!(g.lines[2].id, Some(3));
    assert_eq!(g.lines[2].kind, 6);
    assert_eq!(g.lines[3].id, Some(4));
    assert_eq!(g.lines[3].kind, 7);
}

#[test]
fn add_riders_appends_in_order() {
    let mut g = Game::new();
    let a = Rider {
        start_position: Coordinates { x: 1, y: 2 },
        start_velocity: Coordinates { x: 0, y: 0 },
        remountable: 0,
    };
    let b = Rider {
        start_position: Coordinates { x: 3, y: 4 },
        start_velocity: Coordinates { x: 0, y: 0 },
        remountable: 1,
    };
    g.add_rider(&a);
    g.add_riders(&vec![b, a]);
    assert_eq!(g.riders.len(), 3);
    assert_eq!(g.riders[0], a);
    assert_eq!(g.riders[1], b);
    assert_eq!(g.riders[2], a);
}

#[test]
fn serializing_twice_without_mutation_is_byte_identical() {
    let mut g = Game::new();
    g.add_line(&sample_line());
    g.add_rider(&Rider {
        start_position: Coordinates { x: 1_000_000, y: -2_250_000 },
        start_velocity: Coordinates { x: 0, y: 0 },
        remountable: 3,
    });
    let first = g.construct_game();
    let second = g.construct_game();
    assert_eq!(first, second);
}

#[test]
fn committed_line_serializes_with_id_and_renamed_fields() {
    let mut g = Game::new();
    g.add_line(&sample_line());
    let s = g.construct_game();
    let expected = "{\"id\":1,\"type\":2,\"x1\":-1.500000,\"y1\":0.250000,\"x2\":0.000000,\"y2\":7.000000,\"flipped\":true,\"leftExtended\":false,\"rightExtended\":true}";
    assert!(s.contains(expected));
}

#[test]
fn rider_serializes_with_camel_case_fields() {
    let mut g = Game::new();
    g.add_rider(&Rider {
        start_position: Coordinates { x: 1_000_000, y: -2_250_000 },
        start_velocity: Coordinates { x: 0, y: 0 },
        remountable: 3,
    });
    let s = g.construct_game();
    let expected = "{\"startPosition\":{\"x\":1.000000,\"y\":-2.250000},\"startVelocity\":{\"x\":0.000000,\"y\":0.000000},\"remountable\":3}";
    assert!(s.contains(expected));
}

#[test]
fn strings_are_escaped_in_the_document() {
    let mut g = Game::new();
    g.label = "say \"hi\" \\ there".to_string();
    let s = g.construct_game();
    assert!(s.contains("\"label\":\"say \\\"hi\\\" \\\\ there\""));
}

#[test]
fn audio_reference_serializes_as_string() {
    let mut g = Game::new();
    g.audio = Some("song.mp3".to_string());
    let s = g.construct_game();
    assert!(s.contains("\"audio\":\"song.mp3\""));
}
