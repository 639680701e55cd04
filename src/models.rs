pub mod add_notes;
pub mod create_deck;
pub mod deck_name;
pub mod find_notes;
