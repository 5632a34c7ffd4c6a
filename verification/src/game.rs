//! The track aggregate: owns the entity collections plus metadata, and
//! assigns identity to lines on insertion.

use vstd::prelude::*;
use crate::coords::Coordinates;
use crate::entities::Layer;
use crate::entities::Line;
use crate::entities::Rider;
use crate::entities::Version;
use crate::json::bool_chars;
use crate::json::coords_json;
use crate::json::dec_digits;
use crate::json::json_string;
use crate::json::layers_json;
use crate::json::lines_json;
use crate::json::riders_json;
use crate::json::append_coords;
use crate::json::append_dec;
use crate::json::append_json_string;
use crate::json::append_layers;
use crate::json::append_lines;
use crate::json::append_riders;
use crate::json::str_of;

verus! {

/// The audio reference: a JSON string, or `null` when absent.
pub open spec fn audio_json(a: Option<String>) -> Seq<char> {
    match a {
        Some(s) => json_string(s@),
        None => "null"@,
    }
}

/// Main representation of a Line Rider game.
#[derive(Debug)]
pub struct Game {
    pub label: String,
    pub creator: String,
    pub description: String,
    pub duration: usize,
    pub version: Version,
    pub audio: Option<String>,
    pub start_position: Coordinates,
    pub riders: Vec<Rider>,
    pub layers: Vec<Layer>,
    pub lines: Vec<Line>,
}

/// The given line carrying the given committed id.
pub open spec fn committed(line: Line, rank: usize) -> Line {
    Line {
        id: Some(rank),
        kind: line.kind,
        x1: line.x1,
        y1: line.y1,
        x2: line.x2,
        y2: line.y2,
        flipped: line.flipped,
        left_extended: line.left_extended,
        right_extended: line.right_extended,
    }
}

impl Game {
    /// Every committed line carries its 1-based insertion rank as its id.
    pub open spec fn wf(self) -> bool {
        forall|k: int|
            0 <= k < self.lines@.len() ==> (#[trigger] self.lines@[k]).id == Some((k + 1) as usize)
    }

    /// Creates a new version of the game that can be instantiated and have
    /// lines added to: default label and creator, duration 120, one base
    /// layer, everything else empty.
    pub fn new() -> (r: Game)
        ensures
            r.label@ == "Track created by lr-rust"@,
            r.creator@ == "lr-rust"@,
            r.description@.len() == 0,
            r.duration == 120,
            r.version.0@ == "6.2"@,
            r.audio is None,
            r.start_position.x == 0 && r.start_position.y == 0,
            r.riders@.len() == 0,
            r.lines@.len() == 0,
            r.layers@.len() == 1 && r.layers@[0].is_base_layer(),
            r.wf(),
    {
        let mut layers: Vec<Layer> = Vec::new();
        layers.push(Layer::new());
        let description = String::from_str("");
        proof {
            reveal_strlit("");
        }
        Game {
            label: "Track created by lr-rust".to_string(),
            creator: "lr-rust".to_string(),
            description,
            duration: 120,
            version: Version::default(),
            audio: None,
            start_position: Coordinates { x: 0, y: 0 },
            riders: Vec::new(),
            layers,
            lines: Vec::new(),
        }
    }

    /// Add a singular line to the game: a copy of the given line is appended,
    /// its id overwritten with the new length of the line list.
    pub fn add_line(&mut self, line: &Line)
        requires
            old(self).lines@.len() < usize::MAX,
        ensures
            final(self).lines@ == old(self).lines@.push(
                committed(*line, (old(self).lines@.len() + 1) as usize),
            ),
            final(self).label == old(self).label,
            final(self).creator == old(self).creator,
            final(self).description == old(self).description,
            final(self).duration == old(self).duration,
            final(self).version == old(self).version,
            final(self).audio == old(self).audio,
            final(self).start_position == old(self).start_position,
            final(self).riders == old(self).riders,
            final(self).layers == old(self).layers,
            old(self).wf() ==> final(self).wf(),
    {
        let line_with_id = Line {
            id: Some(self.lines.len() + 1),
            kind: line.kind,
            x1: line.x1,
            y1: line.y1,
            x2: line.x2,
            y2: line.y2,
            flipped: line.flipped,
            left_extended: line.left_extended,
            right_extended: line.right_extended,
        };
        self.lines.push(line_with_id);
    }

    /// Add several lines to the game, in the given order; the order
    /// determines the resulting ids.
    pub fn add_lines(&mut self, lines: &Vec<Line>)
        requires
            old(self).lines@.len() + lines@.len() <= usize::MAX,
        ensures
            final(self).lines@.len() == old(self).lines@.len() + lines@.len(),
            forall|k: int|
                0 <= k < old(self).lines@.len() ==> final(self).lines@[k] == old(self).lines@[k],
            forall|k: int|
                0 <= k < lines@.len() ==> final(self).lines@[old(self).lines@.len() + k]
                    == committed(lines@[k], (old(self).lines@.len() + k + 1) as usize),
            final(self).label == old(self).label,
            final(self).creator == old(self).creator,
            final(self).description == old(self).description,
            final(self).duration == old(self).duration,
            final(self).version == old(self).version,
            final(self).audio == old(self).audio,
            final(self).start_position == old(self).start_position,
            final(self).riders == old(self).riders,
            final(self).layers == old(self).layers,
            old(self).wf() ==> final(self).wf(),
    {
        let mut i: usize = 0;
        while i < lines.len()
            invariant
                i <= lines@.len(),
                old(self).lines@.len() + lines@.len() <= usize::MAX,
                self.lines@.len() == old(self).lines@.len() + i,
                forall|k: int|
                    0 <= k < old(self).lines@.len() ==> self.lines@[k] == old(self).lines@[k],
                forall|k: int|
                    0 <= k < i ==> self.lines@[old(self).lines@.len() + k] == committed(
                        lines@[k],
                        (old(self).lines@.len() + k + 1) as usize,
                    ),
                self.label == old(self).label,
                self.creator == old(self).creator,
                self.description == old(self).description,
                self.duration == old(self).duration,
                self.version == old(self).version,
                self.audio == old(self).audio,
                self.start_position == old(self).start_position,
                self.riders == old(self).riders,
                self.layers == old(self).layers,
            decreases lines@.len() - i,
        {
            let l = lines[i];
            self.add_line(&l);
            i += 1;
        }
        proof {
            if old(self).wf() {
                assert forall|k: int| 0 <= k < self.lines@.len() implies (
                #[trigger] self.lines@[k]).id == Some((k + 1) as usize) by {
                    if k >= old(self).lines@.len() {
                        assert(self.lines@[k] == committed(
                            lines@[k - old(self).lines@.len()],
                            (k + 1) as usize,
                        ));
                    }
                }
            }
        }
    }

    /// Add a singular rider to the game.
    pub fn add_rider(&mut self, rider: &Rider)
        ensures
            final(self).riders@ == old(self).riders@.push(*rider),
            final(self).label == old(self).label,
            final(self).creator == old(self).creator,
            final(self).description == old(self).description,
            final(self).duration == old(self).duration,
            final(self).version == old(self).version,
            final(self).audio == old(self).audio,
            final(self).start_position == old(self).start_position,
            final(self).layers == old(self).layers,
            final(self).lines == old(self).lines,
    {
        self.riders.push(*rider);
    }

    /// Add several riders to the game, in the given order.
    pub fn add_riders(&mut self, riders: &Vec<Rider>)
        ensures
            final(self).riders@ == old(self).riders@ + riders@,
            final(self).label == old(self).label,
            final(self).creator == old(self).creator,
            final(self).description == old(self).description,
            final(self).duration == old(self).duration,
            final(self).version == old(self).version,
            final(self).audio == old(self).audio,
            final(self).start_position == old(self).start_position,
            final(self).layers == old(self).layers,
            final(self).lines == old(self).lines,
    {
        let mut i: usize = 0;
        while i < riders.len()
            invariant
                i <= riders@.len(),
                self.riders@ == old(self).riders@ + riders@.subrange(0, i as int),
                self.label == old(self).label,
                self.creator == old(self).creator,
                self.description == old(self).description,
                self.duration == old(self).duration,
                self.version == old(self).version,
                self.audio == old(self).audio,
                self.start_position == old(self).start_position,
                self.layers == old(self).layers,
                self.lines == old(self).lines,
            decreases riders@.len() - i,
        {
            let r = riders[i];
            self.add_rider(&r);
            proof {
                assert(self.riders@ =~= old(self).riders@ + riders@.subrange(0, i as int + 1));
            }
            i += 1;
        }
        proof {
            assert(riders@.subrange(0, riders@.len() as int) =~= riders@);
        }
    }

    /// The whole track as the JSON document the game imports.
    pub open spec fn json(self) -> Seq<char> {
        "{\"label\":"@ + json_string(self.label@) + ",\"creator\":"@ + json_string(self.creator@)
            + ",\"description\":"@ + json_string(self.description@) + ",\"duration\":"@
            + dec_digits(self.duration as nat) + ",\"version\":"@ + json_string(self.version.0@)
            + ",\"audio\":"@ + audio_json(self.audio) + ",\"startPosition\":"@ + coords_json(
            self.start_position,
        ) + ",\"riders\":"@ + riders_json(self.riders@) + ",\"layers\":"@ + layers_json(
            self.layers@,
        ) + ",\"lines\":"@ + lines_json(self.lines@) + "}"@
    }

    /// Construct JSON representation of game that can be imported: exactly
    /// the document `json` describes, so two calls on an unchanged track
    /// yield identical text.
    pub fn construct_game(&self) -> (r: String)
        ensures
            r@ == self.json(),
    {
        let mut s = String::from_str("{\"label\":");
        append_json_string(&mut s, str_of(&self.label));
        s.append(",\"creator\":");
        append_json_string(&mut s, str_of(&self.creator));
        s.append(",\"description\":");
        append_json_string(&mut s, str_of(&self.description));
        s.append(",\"duration\":");
        append_dec(&mut s, self.duration as u64);
        s.append(",\"version\":");
        append_json_string(&mut s, str_of(&self.version.0));
        s.append(",\"audio\":");
        match &self.audio {
            Some(a) => append_json_string(&mut s, str_of(a)),
            None => s.append("null"),
        }
        s.append(",\"startPosition\":");
        append_coords(&mut s, &self.start_position);
        s.append(",\"riders\":");
        append_riders(&mut s, &self.riders);
        s.append(",\"layers\":");
        append_layers(&mut s, &self.layers);
        s.append(",\"lines\":");
        append_lines(&mut s, &self.lines);
        s.append("}");
        proof {
            assert(s@ =~= self.json());
        }
        s
    }
}

} // verus!
