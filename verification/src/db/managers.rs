//! What the character queries do with the rows they read.

use crate::common::models::character::{Character, CharacterWithThemes};
use crate::common::models::theme::Theme;
use crate::db::models::character::CharacterDbModel;
use crate::db::models::theme::{row_theme, ThemeDbModel};
use vstd::prelude::*;

verus! {

/// A character and its themes from the rows of a join of characters and
/// themes: the character of the first row, and the theme of each row in
/// order. There must be at least one row, and every row's tags must decode.
pub fn character_with_themes(rows: Vec<(CharacterDbModel, ThemeDbModel)>) -> (r: CharacterWithThemes)
    requires
        rows.len() > 0,
        forall|i: int| 0 <= i < rows.len() ==> (#[trigger] rows@[i]).1.tags is Some,
    ensures
        r.0 == (Character { id: rows@[0].0.id, name: rows@[0].0.name, mythos: rows@[0].0.mythos, logos: rows@[0].0.logos }),
        r.1@ == rows@.map_values(|row: (CharacterDbModel, ThemeDbModel)| row_theme(row.1)),
{
    let ghost all = rows@;
    let mut rows = rows;
    let mut character: Option<Character> = None;
    let mut themes: Vec<Theme> = Vec::new();
    let ghost mut i: int = 0;
    while rows.len() > 0
        invariant
            0 <= i <= all.len(),
            all.len() > 0,
            rows@ == all.skip(i),
            forall|k: int| 0 <= k < all.len() ==> (#[trigger] all[k]).1.tags is Some,
            i == 0 <==> character is None,
            character matches Some(c) ==> c == (Character { id: all[0].0.id, name: all[0].0.name, mythos: all[0].0.mythos, logos: all[0].0.logos }),
            themes@ == all.take(i).map_values(|row: (CharacterDbModel, ThemeDbModel)| row_theme(row.1)),
        decreases rows.len(),
    {
        let ghost before = rows@;
        proof {
            assert(before[0] == all[i]);
        }
        let (c, t) = rows.remove(0);
        proof {
            assert(rows@ =~= all.skip(i + 1));
        }
        if character.is_none() {
            character = Some(c.into_character());
        }
        match t.try_into_theme() {
            Ok(theme) => themes.push(theme),
            Err(_) => {
                assert(false);
            },
        }
        proof {
            assert(all.take(i + 1).map_values(|row: (CharacterDbModel, ThemeDbModel)| row_theme(row.1))
                =~= all.take(i).map_values(|row: (CharacterDbModel, ThemeDbModel)| row_theme(row.1)).push(row_theme(all[i].1)));
            i = i + 1;
        }
    }
    proof {
        assert(all.take(i) =~= all);
    }
    match character {
        Some(c) => (c, themes),
        None => {
            assert(false);
            (Character { id: 0, name: String::new(), mythos: String::new(), logos: String::new() }, themes)
        },
    }
}

} // verus!
