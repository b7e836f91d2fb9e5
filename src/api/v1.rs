use vstd::prelude::*;
use vstd::string::*;

verus! {

/// A decimal number, `mantissa / 10^scale`, as the service's real-valued
/// sampling parameters are written here.
#[derive(Debug, Clone, Copy, PartialEq, Eq)]
pub struct Decimal {
    pub mantissa: i64,
    pub scale: u32,
}

/// One value of a request payload.
#[derive(Debug, Clone, PartialEq, Eq)]
pub enum WireValue {
    Bool(bool),
    Int(i32),
    Decimal(Decimal),
    Text(String),
    IntList(Vec<i32>),
}

/// The mathematical value of a [`WireValue`].
pub enum WireValueView {
    Bool(bool),
    Int(i32),
    Decimal(Decimal),
    Text(Seq<char>),
    IntList(Seq<i32>),
}

impl View for WireValue {
    type V = WireValueView;

    open spec fn view(&self) -> WireValueView {
        match self {
            WireValue::Bool(b) => WireValueView::Bool(*b),
            WireValue::Int(i) => WireValueView::Int(*i),
            WireValue::Decimal(d) => WireValueView::Decimal(*d),
            WireValue::Text(s) => WireValueView::Text(s@),
            WireValue::IntList(v) => WireValueView::IntList(v@),
        }
    }
}

/// One named entry of a request payload.
#[derive(Debug, Clone, PartialEq, Eq)]
pub struct WireField {
    pub key: String,
    pub value: WireValue,
}

impl View for WireField {
    type V = (Seq<char>, WireValueView);

    open spec fn view(&self) -> (Seq<char>, WireValueView) {
        (self.key@, self.value@)
    }
}

/// The entries of a payload, as key and value.
pub open spec fn fields_view(s: Seq<WireField>) -> Seq<(Seq<char>, WireValueView)> {
    s.map_values(|f: WireField| f@)
}

/// The entry for an optional setting: none where it is absent.
pub open spec fn opt_entry(key: Seq<char>, v: Option<WireValueView>) -> Seq<
    (Seq<char>, WireValueView),
> {
    match v {
        Some(x) => seq![(key, x)],
        None => seq![],
    }
}

pub open spec fn opt_bool(v: Option<bool>) -> Option<WireValueView> {
    match v {
        Some(b) => Some(WireValueView::Bool(b)),
        None => None,
    }
}

pub open spec fn opt_int(v: Option<i32>) -> Option<WireValueView> {
    match v {
        Some(i) => Some(WireValueView::Int(i)),
        None => None,
    }
}

pub open spec fn opt_decimal(v: Option<Decimal>) -> Option<WireValueView> {
    match v {
        Some(d) => Some(WireValueView::Decimal(d)),
        None => None,
    }
}

pub open spec fn opt_text(v: Option<String>) -> Option<WireValueView> {
    match v {
        Some(s) => Some(WireValueView::Text(s@)),
        None => None,
    }
}

pub open spec fn opt_int_list(v: Option<Vec<i32>>) -> Option<WireValueView> {
    match v {
        Some(l) => Some(WireValueView::IntList(l@)),
        None => None,
    }
}

/// The parameters of one generation request.
#[derive(Debug, Clone)]
pub struct GenerationSettings {
    /// When enabled, all input formatting options default to false instead of
    /// the value in the service's interface.
    pub disable_input_formatting: Option<bool>,
    /// When enabled, all output formatting options default to false instead of
    /// the value in the service's interface.
    pub disable_output_formatting: Option<bool>,
    /// Input formatting: add a leading space to the input if the previous
    /// action has no trailing whitespace. Sent as `frmtadsnsp`.
    pub add_leading_space: Option<bool>,
    /// Output formatting: replace runs of blank lines with one newline. Sent
    /// as `frmtrmblln`.
    pub trim_blank_lines: Option<bool>,
    /// Output formatting: remove `#/@%{}+=~|\^<>` from the output. Sent as
    /// `frmtrmspch`.
    pub trim_special_characters: Option<bool>,
    /// Output formatting: cut the output back so that it does not end in the
    /// middle of a sentence. Sent as `frmttriminc`.
    pub trim_incomplete_sentences: Option<bool>,
    /// Maximum number of tokens to send to the model.
    pub max_context_length: i32,
    /// Number of tokens to generate.
    pub max_length: i32,
    /// Number of outputs to generate.
    pub n: i32,
    /// When enabled, generated output is not shown in the service's console.
    pub quiet: Option<bool>,
    /// Base repetition penalty.
    pub rep_pen: Option<Decimal>,
    /// Repetition penalty range.
    pub rep_pen_range: Option<i32>,
    /// Repetition penalty slope.
    pub rep_pen_slope: Option<Decimal>,
    /// When enabled, the same seed, input and settings always give the same
    /// text.
    pub sampler_full_determinism: Option<bool>,
    /// The order in which samplers apply: a permutation of `0..N`, `N >= 6`.
    pub sampler_order: Option<Vec<i32>>,
    /// Seed of the sampling generator; the service's global one when absent.
    pub sampler_seed: Option<i32>,
    /// Output formatting: keep only the first line of the output. Sent as
    /// `singleline`.
    pub single_line: Option<bool>,
    /// Name of the soft prompt to use; a blank name uses none.
    pub soft_prompt: Option<String>,
    /// Temperature.
    pub temperature: Option<Decimal>,
    /// Tail free sampling value.
    pub tfs: Option<Decimal>,
    /// Top-a sampling value.
    pub top_a: Option<Decimal>,
    /// Top-k sampling value.
    pub top_k: Option<i32>,
    /// Top-p sampling value.
    pub top_p: Option<Decimal>,
    /// Typical sampling value.
    pub typical: Option<Decimal>,
    pub use_memory: bool,
    pub use_story: bool,
    pub use_authors_note: bool,
    pub use_world_info: bool,
    pub use_userscripts: bool,
}

/// The payload of a generation request: every present setting under its
/// wire name, then the prompt under `prompt`.
pub open spec fn wire_entries(s: GenerationSettings, prompt: Seq<char>) -> Seq<
    (Seq<char>, WireValueView),
> {
    opt_entry("disable_input_formatting"@, opt_bool(s.disable_input_formatting))
        + opt_entry("disable_output_formatting"@, opt_bool(s.disable_output_formatting))
        + opt_entry("frmtadsnsp"@, opt_bool(s.add_leading_space))
        + opt_entry("frmtrmblln"@, opt_bool(s.trim_blank_lines))
        + opt_entry("frmtrmspch"@, opt_bool(s.trim_special_characters))
        + opt_entry("frmttriminc"@, opt_bool(s.trim_incomplete_sentences))
        + seq![("max_context_length"@, WireValueView::Int(s.max_context_length))]
        + seq![("max_length"@, WireValueView::Int(s.max_length))]
        + seq![("n"@, WireValueView::Int(s.n))]
        + opt_entry("quiet"@, opt_bool(s.quiet))
        + opt_entry("rep_pen"@, opt_decimal(s.rep_pen))
        + opt_entry("rep_pen_range"@, opt_int(s.rep_pen_range))
        + opt_entry("rep_pen_slope"@, opt_decimal(s.rep_pen_slope))
        + opt_entry("sampler_full_determinism"@, opt_bool(s.sampler_full_determinism))
        + opt_entry("sampler_order"@, opt_int_list(s.sampler_order))
        + opt_entry("sampler_seed"@, opt_int(s.sampler_seed))
        + opt_entry("singleline"@, opt_bool(s.single_line))
        + opt_entry("soft_prompt"@, opt_text(s.soft_prompt))
        + opt_entry("temperature"@, opt_decimal(s.temperature))
        + opt_entry("tfs"@, opt_decimal(s.tfs))
        + opt_entry("top_a"@, opt_decimal(s.top_a))
        + opt_entry("top_k"@, opt_int(s.top_k))
        + opt_entry("top_p"@, opt_decimal(s.top_p))
        + opt_entry("typical"@, opt_decimal(s.typical))
        + seq![("use_memory"@, WireValueView::Bool(s.use_memory))]
        + seq![("use_story"@, WireValueView::Bool(s.use_story))]
        + seq![("use_authors_note"@, WireValueView::Bool(s.use_authors_note))]
        + seq![("use_world_info"@, WireValueView::Bool(s.use_world_info))]
        + seq![("use_userscripts"@, WireValueView::Bool(s.use_userscripts))]
        + seq![("prompt"@, WireValueView::Text(prompt))]
}

/// Appends one entry, where a value is present.
fn push_entry(out: &mut Vec<WireField>, key: &str, value: Option<WireValue>)
    ensures
        fields_view(final(out)@) == fields_view(old(out)@) + opt_entry(
            key@,
            match value {
                Some(v) => Some(v@),
                None => None,
            },
        ),
{
    match value {
        Some(v) => {
            out.push(WireField { key: String::from_str(key), value: v });
            assert(fields_view(final(out)@) =~= fields_view(old(out)@) + seq![(key@, v@)]);
        },
        None => {
            assert(fields_view(final(out)@) =~= fields_view(old(out)@) + seq![]);
        },
    }
}

fn bool_value(v: Option<bool>) -> (r: Option<WireValue>)
    ensures
        match r {
            Some(x) => Some(x@),
            None => None,
        } == opt_bool(v),
{
    match v {
        Some(b) => Some(WireValue::Bool(b)),
        None => None,
    }
}

fn int_value(v: Option<i32>) -> (r: Option<WireValue>)
    ensures
        match r {
            Some(x) => Some(x@),
            None => None,
        } == opt_int(v),
{
    match v {
        Some(i) => Some(WireValue::Int(i)),
        None => None,
    }
}

fn decimal_value(v: Option<Decimal>) -> (r: Option<WireValue>)
    ensures
        match r {
            Some(x) => Some(x@),
            None => None,
        } == opt_decimal(v),
{
    match v {
        Some(d) => Some(WireValue::Decimal(d)),
        None => None,
    }
}

impl GenerationSettings {
    /// The settings as a request payload: every present setting under its
    /// wire name (absent ones left out), and the prompt under `prompt`.
    pub fn to_wire(&self, prompt: &str) -> (r: Vec<WireField>)
        ensures
            fields_view(r@) == wire_entries(*self, prompt@),
    {
        let mut out: Vec<WireField> = Vec::new();
        push_entry(&mut out, "disable_input_formatting", bool_value(self.disable_input_formatting));
        push_entry(&mut out, "disable_output_formatting", bool_value(self.disable_output_formatting));
        push_entry(&mut out, "frmtadsnsp", bool_value(self.add_leading_space));
        push_entry(&mut out, "frmtrmblln", bool_value(self.trim_blank_lines));
        push_entry(&mut out, "frmtrmspch", bool_value(self.trim_special_characters));
        push_entry(&mut out, "frmttriminc", bool_value(self.trim_incomplete_sentences));
        push_entry(&mut out, "max_context_length", Some(WireValue::Int(self.max_context_length)));
        push_entry(&mut out, "max_length", Some(WireValue::Int(self.max_length)));
        push_entry(&mut out, "n", Some(WireValue::Int(self.n)));
        push_entry(&mut out, "quiet", bool_value(self.quiet));
        push_entry(&mut out, "rep_pen", decimal_value(self.rep_pen));
        push_entry(&mut out, "rep_pen_range", int_value(self.rep_pen_range));
        push_entry(&mut out, "rep_pen_slope", decimal_value(self.rep_pen_slope));
        push_entry(&mut out, "sampler_full_determinism", bool_value(self.sampler_full_determinism));
        let order = match &self.sampler_order {
            Some(l) => Some(WireValue::IntList(l.clone())),
            None => None,
        };
        push_entry(&mut out, "sampler_order", order);
        push_entry(&mut out, "sampler_seed", int_value(self.sampler_seed));
        push_entry(&mut out, "singleline", bool_value(self.single_line));
        let soft = match &self.soft_prompt {
            Some(s) => Some(WireValue::Text(s.clone())),
            None => None,
        };
        push_entry(&mut out, "soft_prompt", soft);
        push_entry(&mut out, "temperature", decimal_value(self.temperature));
        push_entry(&mut out, "tfs", decimal_value(self.tfs));
        push_entry(&mut out, "top_a", decimal_value(self.top_a));
        push_entry(&mut out, "top_k", int_value(self.top_k));
        push_entry(&mut out, "top_p", decimal_value(self.top_p));
        push_entry(&mut out, "typical", decimal_value(self.typical));
        push_entry(&mut out, "use_memory", Some(WireValue::Bool(self.use_memory)));
        push_entry(&mut out, "use_story", Some(WireValue::Bool(self.use_story)));
        push_entry(&mut out, "use_authors_note", Some(WireValue::Bool(self.use_authors_note)));
        push_entry(&mut out, "use_world_info", Some(WireValue::Bool(self.use_world_info)));
        push_entry(&mut out, "use_userscripts", Some(WireValue::Bool(self.use_userscripts)));
        push_entry(&mut out, "prompt", Some(WireValue::Text(String::from_str(prompt))));
        assert(fields_view(out@) =~= wire_entries(*self, prompt@));
        out
    }
}

impl Default for GenerationSettings {
    /// The service's own interface defaults, with formatting switched off.
    fn default() -> (r: GenerationSettings)
        ensures
            r.disable_input_formatting == Some(true),
            r.disable_output_formatting == Some(true),
            r.add_leading_space == Some(false),
            r.trim_blank_lines == Some(false),
            r.trim_special_characters == Some(false),
            r.trim_incomplete_sentences == Some(false),
            r.max_context_length == 1024,
            r.max_length == 80,
            r.n == 1,
            r.quiet == Some(true),
            r.rep_pen == Some(Decimal { mantissa: 11, scale: 1 }),
            r.rep_pen_range == Some(1024i32),
            r.rep_pen_slope == Some(Decimal { mantissa: 7, scale: 1 }),
            r.sampler_full_determinism == Some(false),
            r.sampler_order matches Some(o) && o@ == seq![6i32, 0, 1, 2, 3, 4, 5],
            r.sampler_seed == Some(0i32),
            r.single_line == Some(false),
            r.soft_prompt matches Some(p) && p@.len() == 0,
            r.temperature == Some(Decimal { mantissa: 5, scale: 1 }),
            r.tfs == Some(Decimal { mantissa: 1, scale: 0 }),
            r.top_a == Some(Decimal { mantissa: 0, scale: 0 }),
            r.top_k == Some(0i32),
            r.top_p == Some(Decimal { mantissa: 9, scale: 1 }),
            r.typical == Some(Decimal { mantissa: 1, scale: 0 }),
            r.use_memory,
            r.use_story,
            r.use_authors_note,
            r.use_world_info,
            r.use_userscripts,
    {
        let mut order: Vec<i32> = Vec::new();
        order.push(6);
        order.push(0);
        order.push(1);
        order.push(2);
        order.push(3);
        order.push(4);
        order.push(5);
        assert(order@ =~= seq![6i32, 0, 1, 2, 3, 4, 5]);
        GenerationSettings {
            disable_input_formatting: Some(true),
            disable_output_formatting: Some(true),
            add_leading_space: Some(false),
            trim_blank_lines: Some(false),
            trim_special_characters: Some(false),
            trim_incomplete_sentences: Some(false),
            max_context_length: 1024,
            max_length: 80,
            n: 1,
            quiet: Some(true),
            rep_pen: Some(Decimal { mantissa: 11, scale: 1 }),
            rep_pen_range: Some(1024),
            rep_pen_slope: Some(Decimal { mantissa: 7, scale: 1 }),
            sampler_full_determinism: Some(false),
            sampler_order: Some(order),
            sampler_seed: Some(0),
            single_line: Some(false),
            soft_prompt: Some(String::new()),
            temperature: Some(Decimal { mantissa: 5, scale: 1 }),
            tfs: Some(Decimal { mantissa: 1, scale: 0 }),
            top_a: Some(Decimal { mantissa: 0, scale: 0 }),
            top_k: Some(0),
            top_p: Some(Decimal { mantissa: 9, scale: 1 }),
            typical: Some(Decimal { mantissa: 1, scale: 0 }),
            use_memory: true,
            use_story: true,
            use_authors_note: true,
            use_world_info: true,
            use_userscripts: true,
        }
    }
}

} // verus!
