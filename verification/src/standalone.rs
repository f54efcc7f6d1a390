use crate::describe::DescribeError;
use crate::model_selection::{ModelSelection, SelectionAction, SelectionRules};
use vstd::prelude::*;

verus! {

/// The command line of the standalone picture tool.
pub struct Args {
    pub debug: bool,
    /// The picture to describe.
    pub picture_path: String,
    /// What to ask the model about the picture.
    pub prompt: String,
    /// Optional model name to use.
    pub model: Option<String>,
}

impl Args {
    /// Fails when the picture does not exist (`exists` is the answer to that question).
    pub fn check_picture_exists(&self, exists: bool) -> (r: Result<(), DescribeError>)
        ensures
            exists <==> r is Ok,
            r matches Err(DescribeError::PathMissing(p)) ==> p@ == self.picture_path@,
    {
        if exists {
            Ok(())
        } else {
            Err(DescribeError::PathMissing(self.picture_path.clone()))
        }
    }

    /// Starts the choice of the model, by the standalone tool's rules.
    pub fn model_selection(&self) -> (r: (ModelSelection, SelectionAction))
        ensures
            (r.0@, r.1@) == crate::model_selection::initial(
                crate::config::opt_view(self.model),
                false,
                SelectionRules::Standalone,
            ),
    {
        ModelSelection::start(self.model.clone(), false, SelectionRules::Standalone)
    }
}

} // verus!
