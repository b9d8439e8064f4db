pub mod serenity;
pub mod world;
