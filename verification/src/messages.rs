//! The messages that go into a session and the messages that come out.

use vstd::prelude::*;
use crate::clock::Timestamp;
use crate::error::{OutputError, OutputErrorView};
use crate::json::{JsonModel, JsonValue};
use crate::plan::TodoItem;
use crate::text::{decimal, decimal_text, join};

verus! {

/// An image that goes with an input.
#[derive(Debug, PartialEq, Eq)]
pub struct ImageInput {
    /// The encoded image.
    pub data: String,
    /// The media type, such as `image/png`.
    pub mime_type: String,
    /// What the image shows.
    pub description: Option<String>,
}

impl Clone for ImageInput {
    fn clone(&self) -> (r: ImageInput)
        ensures
            r == *self,
    {
        ImageInput {
            data: self.data.clone(),
            mime_type: self.mime_type.clone(),
            description: match &self.description {
                Some(d) => Some(d.clone()),
                None => None,
            },
        }
    }
}

impl ImageInput {
    /// An image without a description.
    pub fn new(data: &str, mime_type: &str) -> (r: ImageInput)
        ensures
            r.data@ == data@,
            r.mime_type@ == mime_type@,
            r.description is None,
    {
        ImageInput { data: data.to_string(), mime_type: mime_type.to_string(), description: None }
    }

    /// An image with a description.
    pub fn with_description(data: &str, mime_type: &str, description: &str) -> (r: ImageInput)
        ensures
            r.data@ == data@,
            r.mime_type@ == mime_type@,
            r.description matches Some(d) && d@ == description@,
    {
        ImageInput {
            data: data.to_string(),
            mime_type: mime_type.to_string(),
            description: Some(description.to_string()),
        }
    }

    /// Sets the description.
    pub fn description(self, description: &str) -> (r: ImageInput)
        ensures
            r.data == self.data,
            r.mime_type == self.mime_type,
            r.description matches Some(d) && d@ == description@,
    {
        let mut image = self;
        image.description = Some(description.to_string());
        image
    }
}

/// What a caller submits: a text and the images that go with it. One input
/// is one turn.
#[derive(Debug, PartialEq, Eq)]
pub struct InputMessage {
    pub message: String,
    pub images: Vec<ImageInput>,
}

impl InputMessage {
    /// An input without images.
    pub fn new(message: &str) -> (r: InputMessage)
        ensures
            r.message@ == message@,
            r.images@.len() == 0,
    {
        InputMessage { message: message.to_string(), images: Vec::new() }
    }

    /// An input with images.
    pub fn with_images(message: &str, images: Vec<ImageInput>) -> (r: InputMessage)
        ensures
            r.message@ == message@,
            r.images == images,
    {
        InputMessage { message: message.to_string(), images }
    }

    /// Adds an image behind the images that are there.
    pub fn add_image(self, image: ImageInput) -> (r: InputMessage)
        ensures
            r.message == self.message,
            r.images@ == self.images@.push(image),
    {
        let mut input = self;
        input.images.push(image);
        input
    }
}

/// What a turn reports.
#[derive(Debug)]
pub enum OutputData {
    /// The turn has begun.
    Start,
    /// A whole answer.
    Primary { content: String },
    /// A fragment of an answer; the fragments of one answer, joined in the
    /// order in which they come, are the answer.
    PrimaryDelta { content: String },
    /// A tool has been started.
    ToolStart { tool_name: String, arguments: JsonValue },
    /// A tool has finished.
    ToolComplete { tool_name: String, result: JsonValue },
    /// A tool has written something.
    ToolOutput { tool_name: String, output: String },
    /// A whole piece of reasoning.
    Reasoning { content: String },
    /// A fragment of reasoning.
    ReasoningDelta { content: String },
    /// The plan has changed.
    TodoUpdate { todos: Vec<TodoItem> },
    /// The turn has ended well.
    Completed,
    /// The turn has met an error.
    Error { error: OutputError },
}

/// What an [`OutputData`] stands for.
pub enum OutputDataView {
    Start,
    Primary { content: Seq<char> },
    PrimaryDelta { content: Seq<char> },
    ToolStart { tool_name: Seq<char>, arguments: JsonModel },
    ToolComplete { tool_name: Seq<char>, result: JsonModel },
    ToolOutput { tool_name: Seq<char>, output: Seq<char> },
    Reasoning { content: Seq<char> },
    ReasoningDelta { content: Seq<char> },
    TodoUpdate { todos: Seq<TodoItem> },
    Completed,
    Error { error: OutputErrorView },
}

impl View for OutputData {
    type V = OutputDataView;

    open spec fn view(&self) -> OutputDataView {
        match *self {
            OutputData::Start => OutputDataView::Start,
            OutputData::Primary { content } => OutputDataView::Primary { content: content@ },
            OutputData::PrimaryDelta { content } => OutputDataView::PrimaryDelta {
                content: content@,
            },
            OutputData::ToolStart { tool_name, arguments } => OutputDataView::ToolStart {
                tool_name: tool_name@,
                arguments: arguments@,
            },
            OutputData::ToolComplete { tool_name, result } => OutputDataView::ToolComplete {
                tool_name: tool_name@,
                result: result@,
            },
            OutputData::ToolOutput { tool_name, output } => OutputDataView::ToolOutput {
                tool_name: tool_name@,
                output: output@,
            },
            OutputData::Reasoning { content } => OutputDataView::Reasoning { content: content@ },
            OutputData::ReasoningDelta { content } => OutputDataView::ReasoningDelta {
                content: content@,
            },
            OutputData::TodoUpdate { todos } => OutputDataView::TodoUpdate { todos: todos@ },
            OutputData::Completed => OutputDataView::Completed,
            OutputData::Error { error } => OutputDataView::Error { error: error@ },
        }
    }
}

impl OutputDataView {
    /// Whether the value ends a turn for its consumer.
    pub open spec fn is_terminal(self) -> bool {
        self is Completed || self is Error
    }

    /// Whether the value is a fragment of a longer one.
    pub open spec fn is_delta(self) -> bool {
        self is PrimaryDelta || self is ReasoningDelta
    }
}

impl OutputData {
    /// A whole answer.
    pub fn primary(content: &str) -> (r: OutputData)
        ensures
            r@ == (OutputDataView::Primary { content: content@ }),
    {
        OutputData::Primary { content: content.to_string() }
    }

    /// A fragment of an answer.
    pub fn primary_delta(content: &str) -> (r: OutputData)
        ensures
            r@ == (OutputDataView::PrimaryDelta { content: content@ }),
    {
        OutputData::PrimaryDelta { content: content.to_string() }
    }

    /// The start of a tool.
    pub fn tool_start(tool_name: &str, arguments: JsonValue) -> (r: OutputData)
        ensures
            r@ == (OutputDataView::ToolStart { tool_name: tool_name@, arguments: arguments@ }),
    {
        OutputData::ToolStart { tool_name: tool_name.to_string(), arguments }
    }

    /// The end of a tool.
    pub fn tool_complete(tool_name: &str, result: JsonValue) -> (r: OutputData)
        ensures
            r@ == (OutputDataView::ToolComplete { tool_name: tool_name@, result: result@ }),
    {
        OutputData::ToolComplete { tool_name: tool_name.to_string(), result }
    }

    /// Something a tool has written.
    pub fn tool_output(tool_name: &str, output: &str) -> (r: OutputData)
        ensures
            r@ == (OutputDataView::ToolOutput { tool_name: tool_name@, output: output@ }),
    {
        OutputData::ToolOutput { tool_name: tool_name.to_string(), output: output.to_string() }
    }

    /// A whole piece of reasoning.
    pub fn reasoning(content: &str) -> (r: OutputData)
        ensures
            r@ == (OutputDataView::Reasoning { content: content@ }),
    {
        OutputData::Reasoning { content: content.to_string() }
    }

    /// A fragment of reasoning.
    pub fn reasoning_delta(content: &str) -> (r: OutputData)
        ensures
            r@ == (OutputDataView::ReasoningDelta { content: content@ }),
    {
        OutputData::ReasoningDelta { content: content.to_string() }
    }

    /// A change of the plan.
    pub fn todo_update(todos: Vec<TodoItem>) -> (r: OutputData)
        ensures
            r@ == (OutputDataView::TodoUpdate { todos: todos@ }),
    {
        OutputData::TodoUpdate { todos }
    }

    /// An error.
    pub fn error(error: OutputError) -> (r: OutputData)
        ensures
            r@ == (OutputDataView::Error { error: error@ }),
    {
        OutputData::Error { error }
    }

    /// The general error with the given text.
    pub fn general_error(message: &str) -> (r: OutputData)
        ensures
            r@ == general_error_view(message@),
    {
        OutputData::Error { error: OutputError::general(message) }
    }
}

/// The general error with the given text, as a turn reports it.
pub open spec fn general_error_view(message: Seq<char>) -> OutputDataView {
    OutputDataView::Error { error: OutputErrorView::General { message } }
}

/// One report of a turn. `turn_id` is the number of the input that the
/// report answers.
#[derive(Debug)]
pub struct OutputMessage {
    pub turn_id: u64,
    pub data: OutputData,
    /// When the message was made.
    pub timestamp: Timestamp,
}

/// The line that shows a report of the turn `turn_id` to a reader.
pub open spec fn display_text(turn_id: u64, data: OutputDataView) -> Seq<char> {
    match data {
        OutputDataView::Start => "[Turn "@ + decimal_text(turn_id as nat) + "] Started"@,
        OutputDataView::Primary { content } => content,
        OutputDataView::PrimaryDelta { content } => content,
        OutputDataView::ToolStart { tool_name, .. } => "[Tool] Starting "@ + tool_name,
        OutputDataView::ToolComplete { tool_name, .. } => "[Tool] Completed "@ + tool_name,
        OutputDataView::ToolOutput { tool_name, output } => "["@ + tool_name + "] "@ + output,
        OutputDataView::Reasoning { content } => "[Reasoning] "@ + content,
        OutputDataView::ReasoningDelta { content } => content,
        OutputDataView::TodoUpdate { todos } => "[Plan] "@ + decimal_text(todos.len()) + " todos"@,
        OutputDataView::Completed => "[Turn "@ + decimal_text(turn_id as nat) + "] Completed"@,
        OutputDataView::Error { error } => "[Error] "@ + error.debug_text(),
    }
}

impl OutputMessage {
    /// A report of the turn `turn_id`, stamped with the current time.
    pub fn new(turn_id: u64, data: OutputData) -> (r: OutputMessage)
        ensures
            r.turn_id == turn_id,
            r.data == data,
    {
        OutputMessage { turn_id, data, timestamp: crate::clock::now() }
    }

    /// The line that shows the report to a reader.
    pub fn to_text(&self) -> (r: String)
        ensures
            r@ == display_text(self.turn_id, self.data@),
    {
        match &self.data {
            OutputData::Start => {
                let mut out = join("[Turn ", decimal(self.turn_id).as_str());
                out.append("] Started");
                out
            },
            OutputData::Primary { content } => content.clone(),
            OutputData::PrimaryDelta { content } => content.clone(),
            OutputData::ToolStart { tool_name, .. } => join("[Tool] Starting ", tool_name.as_str()),
            OutputData::ToolComplete { tool_name, .. } => join(
                "[Tool] Completed ",
                tool_name.as_str(),
            ),
            OutputData::ToolOutput { tool_name, output } => {
                let mut out = join("[", tool_name.as_str());
                out.append("] ");
                out.append(output.as_str());
                out
            },
            OutputData::Reasoning { content } => join("[Reasoning] ", content.as_str()),
            OutputData::ReasoningDelta { content } => content.clone(),
            OutputData::TodoUpdate { todos } => {
                let mut out = join("[Plan] ", decimal(todos.len() as u64).as_str());
                out.append(" todos");
                out
            },
            OutputData::Completed => {
                let mut out = join("[Turn ", decimal(self.turn_id).as_str());
                out.append("] Completed");
                out
            },
            OutputData::Error { error } => join("[Error] ", error.debug_text().as_str()),
        }
    }
}

} // verus!
