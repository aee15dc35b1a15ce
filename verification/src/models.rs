//! Which models to try, and in what order.

use vstd::prelude::*;
use crate::schema::{texts, AiConfig};

verus! {

impl AiConfig {
    /// The candidate models, most preferred first.
    ///
    /// A non-empty `models` list is the answer as it stands, whatever `model`
    /// holds. Otherwise a non-empty `model` is the only candidate. With
    /// neither, the list is empty and the caller picks a fallback. The two
    /// fields are never merged.
    pub fn models_priority(&self) -> (candidates: Vec<String>)
        ensures
            self@.models.len() > 0 ==> texts(candidates@) == self@.models,
            self@.models.len() == 0 && self@.model.len() > 0 ==> texts(candidates@) == seq![
                self@.model,
            ],
            self@.models.len() == 0 && self@.model.len() == 0 ==> texts(candidates@)
                == Seq::<Seq<char>>::empty(),
    {
        if !self.models.is_empty() {
            self.models.clone()
        } else if !self.model.as_str().is_empty() {
            vec![self.model.clone()]
        } else {
            vec![]
        }
    }
}

} // verus!
