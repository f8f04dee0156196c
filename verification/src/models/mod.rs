//! The data that messages, bots and folders carry.
pub mod bot;
pub mod folder;
pub mod keyboard;

pub use bot::{BotCommand, BotInfo};
pub use folder::{ChatFolder, FoldersPayload};
pub use keyboard::{InlineKeyboardAttachment, InlineKeyboardButton, InlineKeyboardLayout};
