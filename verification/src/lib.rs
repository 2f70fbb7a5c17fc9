//! Picking, creating and attaching to tmux sessions on a remote host over ssh:
//! the remote commands, the reading of `tmux list-sessions`, session-name
//! rules and the decisions of the terminal picker.
pub mod text;
pub mod quote;
pub mod command;
pub mod sessions;
pub mod naming;
pub mod ui;

pub use command::{
    DEFAULT_REMOTE_TERM,
    action_command, attach_command, attach_command_with_term, list_sessions_command,
    new_session_command, new_session_command_with_term, remote_tmux_command,
    remote_tmux_command_with_term, tmux_candidate_word, tmux_candidate_list, tmux_candidates, tmux_lookup_script, TmuxAction,
};
pub use naming::validate_new_session_name;
pub use quote::shell_quote;
pub use sessions::{
    classify_list_sessions_output, is_no_tmux_server_error, parse_session_list,
    ListSessionsError,
};
pub use ui::{
    action_after_picker_prompt, action_after_start_prompt, attach_selected, start_screen, Screen,
    centered_rect, name_prompt_lines, no_sessions_title, picker_step, Key, NamePrompt, PickerStep,
    PromptStep, Rect,
};
