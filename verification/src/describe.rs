use crate::config::ConfigCommand;
use crate::global_args::GlobalArgs;
use crate::model_selection::{ModelSelection, SelectionAction, SelectionRules};
use base64::Engine;
use vstd::prelude::*;

verus! {

/// Path of an image to describe, as given on the command line.
pub struct ImagePath {
    pub inner: String,
}

impl ImagePath {
    /// Reads a path from its command-line text; every text is a path.
    pub fn from_str(s: &str) -> (r: Result<ImagePath, DescribeError>)
        ensures
            r matches Ok(p) && p.inner@ == s@,
    {
        Ok(ImagePath { inner: String::from_str(s) })
    }

    /// The path as it is shown to the user.
    pub fn to_string(&self) -> (r: String)
        ensures
            r@ == self.inner@,
    {
        self.inner.clone()
    }
}

/// What the model said about an image.
pub struct ImageDescription {
    pub inner: String,
}

impl ImageDescription {
    /// The description made of a model's reply.
    pub fn from_response(response: String) -> (r: ImageDescription)
        ensures
            r.inner@ == response@,
    {
        ImageDescription { inner: response }
    }
}

/// Why describing images failed before any request was sent.
#[derive(Debug)]
pub enum DescribeError {
    /// This image path does not exist.
    PathMissing(String),
}

impl DescribeError {
    /// The message shown for this error.
    pub fn message(&self) -> (r: String)
        ensures
            self matches DescribeError::PathMissing(p) ==> r@ == "Picture path does not exist: "@
                + p@,
    {
        match self {
            DescribeError::PathMissing(p) => {
                let mut r = String::from_str("Picture path does not exist: ");
                r.append(p.as_str());
                r
            },
        }
    }
}

/// `image describe`: describe images with a vision model.
pub struct DescribeCommand {
    /// Paths of the images to describe.
    pub image_path: Vec<ImagePath>,
    /// Optional prompt/instructions for the model.
    pub prompt: Option<String>,
    /// Optional model name to use.
    pub model: Option<String>,
}

/// The index of the first `false` in `exists`, if any.
pub open spec fn first_missing(exists: Seq<bool>) -> Option<int> {
    if exists.contains(false) {
        Some(choose|i: int| 0 <= i < exists.len() && !exists[i] && forall|j: int| 0 <= j < i ==> exists[j])
    } else {
        None
    }
}

/// The prompt used when none is given.
pub open spec fn default_prompt() -> Seq<char> {
    "Describe this image"@
}

impl DescribeCommand {
    /// Checks the answers to "does this path exist?", one per image path in
    /// order: fails on the first path that does not exist.
    pub fn check_paths_exist(&self, exists: &Vec<bool>) -> (r: Result<(), DescribeError>)
        requires
            exists.len() == self.image_path.len(),
        ensures
            r is Ok <==> forall|i: int| 0 <= i < exists.len() ==> exists[i],
            r matches Err(DescribeError::PathMissing(p)) ==> first_missing(exists@) matches Some(i)
                && p@ == self.image_path[i].inner@,
    {
        let mut i: usize = 0;
        while i < exists.len()
            invariant
                i <= exists.len(),
                exists.len() == self.image_path.len(),
                forall|j: int| 0 <= j < i ==> exists[j],
            decreases exists.len() - i,
        {
            if !exists[i] {
                proof {
                    assert(exists@[i as int] == false);
                    assert(exists@.contains(false));
                    let k = choose|k: int|
                        0 <= k < exists.len() && !exists[k] && forall|j: int| 0 <= j < k ==> exists[j];
                    if k < i {
                        assert(exists[k]);
                    }
                    if k > i {
                        assert(exists[i as int]);
                    }
                    assert(k == i);
                }
                return Err(DescribeError::PathMissing(self.image_path[i].inner.clone()));
            }
            i = i + 1;
        }
        Ok(())
    }

    /// The prompt sent with each image: the given one, else the default.
    pub fn effective_prompt(&self) -> (r: String)
        ensures
            self.prompt matches Some(p) ==> r@ == p@,
            self.prompt is None ==> r@ == default_prompt(),
    {
        match &self.prompt {
            Some(p) => p.clone(),
            None => String::from_str("Describe this image"),
        }
    }

    /// Starts the choice of the model, from the `--model` argument.
    pub fn model_selection(&self, global: &GlobalArgs) -> (r: (ModelSelection, SelectionAction))
        ensures
            (r.0@, r.1@) == crate::model_selection::initial(
                crate::config::opt_view(self.model),
                global.non_interactive,
                SelectionRules::Command,
            ),
    {
        ModelSelection::start(self.model.clone(), global.non_interactive, SelectionRules::Command)
    }
}

/// The character of six-bit value `v` in the standard base64 alphabet.
pub open spec fn base64_char(v: int) -> char {
    if v < 26 {
        (65 + v) as char
    } else if v < 52 {
        (71 + v) as char
    } else if v < 62 {
        (v - 4) as char
    } else if v == 62 {
        '+'
    } else {
        '/'
    }
}

/// The standard base64 encoding of `bytes`, padded with `=`: each group of
/// three bytes gives four characters of six bits each, most significant first.
pub open spec fn base64_standard(bytes: Seq<u8>) -> Seq<char>
    decreases bytes.len(),
{
    if bytes.len() == 0 {
        seq![]
    } else if bytes.len() == 1 {
        seq![base64_char((bytes[0] as int) / 4), base64_char(((bytes[0] as int) % 4) * 16), '=', '=']
    } else if bytes.len() == 2 {
        seq![
            base64_char((bytes[0] as int) / 4),
            base64_char(((bytes[0] as int) % 4) * 16 + (bytes[1] as int) / 16),
            base64_char(((bytes[1] as int) % 16) * 4),
            '=',
        ]
    } else {
        seq![
            base64_char((bytes[0] as int) / 4),
            base64_char(((bytes[0] as int) % 4) * 16 + (bytes[1] as int) / 16),
            base64_char(((bytes[1] as int) % 16) * 4 + (bytes[2] as int) / 64),
            base64_char((bytes[2] as int) % 64),
        ] + base64_standard(bytes.skip(3))
    }
}

/// Four characters for each started group of three bytes.
pub proof fn lemma_base64_len(bytes: Seq<u8>)
    ensures
        base64_standard(bytes).len() == (bytes.len() + 2) / 3 * 4,
    decreases bytes.len(),
{
    if bytes.len() >= 3 {
        lemma_base64_len(bytes.skip(3));
    }
}

/// Encodes with `base64::engine::general_purpose::STANDARD.encode`. Claimed:
/// the result is the standard padded encoding that `base64_standard` states.
/// The call panics when the encoded length overflows `usize`, which
/// `requires` rules out.
#[verifier::external_body]
fn encode_base64(bytes: &[u8]) -> (r: String)
    requires
        bytes@.len() / 3 * 4 + 4 <= usize::MAX,
    ensures
        r@ == base64_standard(bytes@),
{
    base64::engine::general_purpose::STANDARD.encode(bytes)
}

/// One image description request: the model, the prompt and the image.
pub struct DescribeRequest {
    pub model: String,
    pub prompt: String,
    /// The image file's bytes, base64 encoded.
    pub image_base64: String,
}

impl DescribeRequest {
    /// The request that asks `model` to answer `prompt` about the image
    /// whose file holds `image_bytes`.
    pub fn new(model: String, prompt: String, image_bytes: &Vec<u8>) -> (r: DescribeRequest)
        requires
            image_bytes@.len() / 3 * 4 + 4 <= usize::MAX,
        ensures
            r.model@ == model@,
            r.prompt@ == prompt@,
            r.image_base64@ == base64_standard(image_bytes@),
            r.image_base64@.len() == (image_bytes@.len() + 2) / 3 * 4,
    {
        let image_base64 = encode_base64(image_bytes.as_slice());
        proof {
            lemma_base64_len(image_bytes@);
        }
        DescribeRequest { model, prompt, image_base64 }
    }
}

/// The line printed for one described image: `PATH: DESCRIPTION`.
pub fn result_line(path: &ImagePath, description: &ImageDescription) -> (r: String)
    ensures
        r@ == path.inner@ + ": "@ + description.inner@,
{
    let mut r = path.to_string();
    r.append(": ");
    r.append(description.inner.as_str());
    r
}

/// The image tool's subcommands.
pub enum Command {
    /// Describe images.
    Describe(DescribeCommand),
    /// Manage configuration.
    Config(ConfigCommand),
}

/// The image tool's command line.
pub struct Args {
    pub global: GlobalArgs,
    pub command: Command,
}

} // verus!
