//! Data model of the remote generation service: the request with its
//! static defaults and range invariant, the structured reply, and the
//! checked extraction of the surfaced text.
use vstd::prelude::*;
use crate::errors::GenerationError;

verus! {

/// Paired transcript: `internal` is the model-context form, `visible`
/// the display form. Both are empty for single-turn requests.
#[derive(Debug)]
pub struct History {
    pub internal: Vec<Vec<String>>,
    pub visible: Vec<Vec<String>>,
}

/// One result set of a reply, carrying its transcript pair.
#[derive(Debug)]
pub struct Results {
    pub history: History,
}

/// The remote service's reply: a list of result sets.
#[derive(Debug)]
pub struct Response {
    pub results: Vec<Results>,
}

/// A generation request: the user's input, the transcript so far, and
/// the generation-control parameters. Fractional parameters are held in
/// thousandths, so `temperature` of 700 means seven tenths on the wire.
#[derive(Debug)]
pub struct Request {
    pub user_input: String,
    pub history: History,
    pub mode: String,
    pub character: String,
    pub instruction_template: String,

    pub regenerate: bool,
    pub _continue: bool,
    pub stop_at_newline: bool,
    pub chat_prompt_size: i32,
    pub chat_generation_attempts: i32,
    pub instruct_command: String,

    pub max_new_tokens: i32,
    pub do_sample: bool,
    pub temperature: u32,
    pub top_p: u32,
    pub typical_p: i32,
    pub epsilon_cutoff: i32,
    pub eta_cutoff: i32,
    pub repetition_penalty: u32,
    pub top_k: i32,
    pub min_length: i32,
    pub no_repeat_ngram_size: i32,
    pub num_beams: i32,
    pub penalty_alpha: i32,
    pub length_penalty: i32,
    pub early_stopping: bool,
    pub mirostat_mode: i32,
    pub mirostat_tau: i32,
    pub mirostat_eta: u32,
    pub seed: i32,
    pub add_bos_token: bool,
    pub truncation_length: i32,
    pub ban_eos_token: bool,
    pub skip_special_tokens: bool,
    pub stopping_strings: Vec<String>,
}

impl Request {
    /// Range invariant: every numeric parameter lies within what the
    /// remote service accepts, the mode is one of the three it knows,
    /// and the user input is present.
    pub open spec fn valid(self) -> bool {
        &&& self.user_input@.len() > 0
        &&& (self.mode@ == "chat"@ || self.mode@ == "chat-instruct"@ || self.mode@ == "instruct"@)
        &&& 1 <= self.temperature <= 5000
        &&& self.top_p <= 1000
        &&& self.repetition_penalty <= 10000
        &&& self.mirostat_eta <= 1000
        &&& self.max_new_tokens >= 1
        &&& self.chat_prompt_size >= 0
        &&& self.chat_generation_attempts >= 1
        &&& self.typical_p >= 0
        &&& self.epsilon_cutoff >= 0
        &&& self.eta_cutoff >= 0
        &&& self.top_k >= 0
        &&& self.min_length >= 0
        &&& self.no_repeat_ngram_size >= 0
        &&& self.num_beams >= 1
        &&& self.penalty_alpha >= 0
        &&& self.length_penalty >= 0
        &&& 0 <= self.mirostat_mode <= 2
        &&& self.mirostat_tau >= 0
        &&& self.seed >= -1
        &&& self.truncation_length >= 1
    }

    /// The static defaults with `input` as the user input: a single-turn
    /// instruct-mode request, empty transcript, no stop sequences.
    pub open spec fn is_default_with_input(self, input: Seq<char>) -> bool {
        &&& self.user_input@ == input
        &&& self.history.internal@ =~= Seq::<Vec<String>>::empty()
        &&& self.history.visible@ =~= Seq::<Vec<String>>::empty()
        &&& self.mode@ == "instruct"@
        &&& self.character@ == "None"@
        &&& self.instruction_template@ == "Alpaca"@
        &&& self.regenerate == false
        &&& self._continue == false
        &&& self.stop_at_newline == false
        &&& self.chat_prompt_size == 2048
        &&& self.chat_generation_attempts == 1
        &&& self.instruct_command@
            == "Below is an instruction that describes a task. Write a response that appropriately completes the request."@
        &&& self.max_new_tokens == 2000
        &&& self.do_sample == true
        &&& self.temperature == 700
        &&& self.top_p == 100
        &&& self.typical_p == 1
        &&& self.epsilon_cutoff == 0
        &&& self.eta_cutoff == 0
        &&& self.repetition_penalty == 1180
        &&& self.top_k == 40
        &&& self.min_length == 0
        &&& self.no_repeat_ngram_size == 0
        &&& self.num_beams == 1
        &&& self.penalty_alpha == 0
        &&& self.length_penalty == 1
        &&& self.early_stopping == false
        &&& self.mirostat_mode == 0
        &&& self.mirostat_tau == 5
        &&& self.mirostat_eta == 100
        &&& self.seed == -1
        &&& self.add_bos_token == true
        &&& self.truncation_length == 2048
        &&& self.ban_eos_token == false
        &&& self.skip_special_tokens == true
        &&& self.stopping_strings@ =~= Seq::<String>::empty()
    }

    /// Builds a request for `input` with every parameter at its static
    /// default.
    pub fn new(input: String) -> (r: Request)
        ensures
            r.is_default_with_input(input@),
            input@.len() > 0 ==> r.valid(),
    {
        Request {
            user_input: input,
            history: History { internal: Vec::new(), visible: Vec::new() },
            mode: String::from_str("instruct"),
            character: String::from_str("None"),
            instruction_template: String::from_str("Alpaca"),
            regenerate: false,
            _continue: false,
            stop_at_newline: false,
            chat_prompt_size: 2048,
            chat_generation_attempts: 1,
            instruct_command: String::from_str(
                "Below is an instruction that describes a task. Write a response that appropriately completes the request.",
            ),
            max_new_tokens: 2000,
            do_sample: true,
            temperature: 700,
            top_p: 100,
            typical_p: 1,
            epsilon_cutoff: 0,
            eta_cutoff: 0,
            repetition_penalty: 1180,
            top_k: 40,
            min_length: 0,
            no_repeat_ngram_size: 0,
            num_beams: 1,
            penalty_alpha: 0,
            length_penalty: 1,
            early_stopping: false,
            mirostat_mode: 0,
            mirostat_tau: 5,
            mirostat_eta: 100,
            seed: -1,
            add_bos_token: true,
            truncation_length: 2048,
            ban_eos_token: false,
            skip_special_tokens: true,
            stopping_strings: Vec::new(),
        }
    }
}

impl Default for Request {
    /// The static defaults, with the sample input the service's
    /// documentation uses.
    fn default() -> (r: Request)
        ensures
            r.is_default_with_input("Hello"@),
            r.valid(),
    {
        proof {
            reveal_strlit("Hello");
        }
        Request::new(String::from_str("Hello"))
    }
}

/// The text a reply surfaces to the user: the last element of the last
/// pair of the visible transcript of the first result set, or nothing
/// where any of those is absent.
pub open spec fn spec_surfaced_text(r: Response) -> Option<Seq<char>> {
    if r.results@.len() == 0 {
        None
    } else {
        let visible = r.results@[0].history.visible@;
        if visible.len() == 0 {
            None
        } else {
            let pair = visible.last()@;
            if pair.len() == 0 {
                None
            } else {
                Some(pair.last()@)
            }
        }
    }
}

/// Which structural part of an incomplete reply was missing, as the
/// protocol-error detail text.
pub open spec fn spec_protocol_detail(r: Response) -> Seq<char> {
    if r.results@.len() == 0 {
        "reply carries no result set"@
    } else if r.results@[0].history.visible@.len() == 0 {
        "reply carries an empty visible transcript"@
    } else {
        "reply carries an empty message pair"@
    }
}

/// Extracts the surfaced text of a reply, reporting a protocol error on
/// any structurally incomplete reply instead of ever returning a text.
pub fn extract_text(r: &Response) -> (res: Result<String, GenerationError>)
    ensures
        match res {
            Ok(t) => spec_surfaced_text(*r) == Some(t@),
            Err(e) => {
                &&& spec_surfaced_text(*r) is None
                &&& e matches GenerationError::ProtocolError(d) && d@ == spec_protocol_detail(*r)
            },
        },
{
    if r.results.len() == 0 {
        return Err(GenerationError::ProtocolError(String::from_str("reply carries no result set")));
    }
    let visible = &r.results[0].history.visible;
    if visible.len() == 0 {
        return Err(GenerationError::ProtocolError(String::from_str(
            "reply carries an empty visible transcript",
        )));
    }
    let pair = &visible[visible.len() - 1];
    if pair.len() == 0 {
        return Err(GenerationError::ProtocolError(String::from_str(
            "reply carries an empty message pair",
        )));
    }
    Ok(pair[pair.len() - 1].clone())
}

} // verus!
