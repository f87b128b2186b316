use vstd::prelude::*;

verus! {

/// A game board: a titled list of category slots owned by a user.
pub struct GameBoard {
    pub id: i64,
    /// Creation instant, in seconds since the UNIX epoch.
    pub created_at: i64,
    /// Last update instant, in seconds since the UNIX epoch.
    pub updated_at: i64,
    pub user_id: i64,
    pub title: String,
    pub categories: Vec<Option<String>>,
}

/// The fields of a board to be created.
pub struct NewGameBoard {
    pub user_id: i64,
    pub title: String,
}

/// The fields of a board to be changed; an absent field is left as it is.
pub struct UpdateGameBoard {
    pub title: Option<String>,
    pub categories: Option<Vec<String>>,
}

impl GameBoard {
    /// Fills the category slot at `index`, leaving every other slot as it was.
    pub fn update_game_board_category(&mut self, index: i32, category: String)
        requires
            0 <= index < old(self).categories@.len(),
        ensures
            final(self).categories@ == old(self).categories@.update(index as int, Some(category)),
            final(self).id == old(self).id,
            final(self).created_at == old(self).created_at,
            final(self).updated_at == old(self).updated_at,
            final(self).user_id == old(self).user_id,
            final(self).title == old(self).title,
    {
        self.categories.set(index as usize, Some(category));
    }
}

} // verus!
