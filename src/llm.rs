use vstd::prelude::*;

verus! {

/// One part of a chat message; `kind` is the part's type tag (`"text"`).
pub struct Content {
    pub kind: String,
    pub text: String,
}

/// A chat message sent to the language model.
pub struct Message {
    pub role: String,
    pub content: Vec<Content>,
}

/// The message part of one answer of the model.
pub struct ApiMessage {
    pub content: String,
}

/// One answer of the model.
pub struct ApiChoice {
    pub message: ApiMessage,
}

/// The model's reply: its candidate answers.
pub struct ApiResponse {
    pub choices: Vec<ApiChoice>,
}

impl ApiResponse {
    /// The text of the first answer, or `None` when the reply holds no answer.
    pub fn into_first_content(self) -> (r: Option<String>)
        ensures
            self.choices@.len() == 0 ==> r.is_none(),
            self.choices@.len() > 0 ==> r == Some(self.choices@[0].message.content),
    {
        let mut choices = self.choices;
        if choices.len() == 0 {
            None
        } else {
            let first = choices.swap_remove(0);
            Some(first.message.content)
        }
    }
}

} // verus!
