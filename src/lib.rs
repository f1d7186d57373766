//! A Magic 8 Ball that answers questions with the help of a language model and keeps each
//! final answer in a key-value store, so that a question asked again gets the same answer.
//!
//! `answer` holds the policy on texts: how a question becomes a prompt and how the model's
//! output becomes an answer. `resolver` holds the caching decisions as a state machine whose
//! caller performs the store and model requests. `request` turns request bodies into work and
//! answers into replies.

pub mod answer;
pub mod request;
pub mod resolver;
