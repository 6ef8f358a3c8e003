use vstd::prelude::*;
use crate::text::is_space;

verus! {

/// The in-process actions a verb can trigger.
#[derive(Clone, Copy, Debug, PartialEq, Eq, Structural)]
pub enum Internal {
    Back,
    OpenLeave,
    OpenPreview,
    ClosePreview,
    TogglePreview,
    PreviewImage,
    PreviewText,
    PreviewBinary,
    ClosePanelOk,
    ClosePanelCancel,
    CopyPath,
    Filesystems,
    Focus,
    Help,
    InputPaste,
    LineDown,
    LineUp,
    StartEndPanel,
    NextMatch,
    NoSort,
    OpenStay,
    OpenStayFilter,
    Parent,
    PageDown,
    PageUp,
    PanelLeft,
    PanelRight,
    PrintPath,
    PrintRelativePath,
    PrintTree,
    Quit,
    Refresh,
    SortByCount,
    SortByDate,
    SortBySize,
    ToggleCounts,
    ToggleDates,
    ToggleFiles,
    ToggleGitIgnore,
    ToggleGitFileInfo,
    ToggleGitStatus,
    ToggleRootFs,
    ToggleHidden,
    TogglePerm,
    ToggleSizes,
    ToggleTrimRoot,
    TotalSearch,
    UpTree,
}

/// Text with no brace and no space, the form of an action's name.
pub open spec fn is_plain_word(s: Seq<char>) -> bool {
    s.len() > 0 && forall|i: int| 0 <= i < s.len() ==> s[i] != '{' && s[i] != '}' && !is_space(#[trigger] s[i])
}

/// The name of each action.
pub open spec fn action_name(a: Internal) -> Seq<char> {
    match a {
        Internal::Back => "back"@,
        Internal::OpenLeave => "open_leave"@,
        Internal::OpenPreview => "open_preview"@,
        Internal::ClosePreview => "close_preview"@,
        Internal::TogglePreview => "toggle_preview"@,
        Internal::PreviewImage => "preview_image"@,
        Internal::PreviewText => "preview_text"@,
        Internal::PreviewBinary => "preview_binary"@,
        Internal::ClosePanelOk => "close_panel_ok"@,
        Internal::ClosePanelCancel => "close_panel_cancel"@,
        Internal::CopyPath => "copy_path"@,
        Internal::Filesystems => "filesystems"@,
        Internal::Focus => "focus"@,
        Internal::Help => "help"@,
        Internal::InputPaste => "input_paste"@,
        Internal::LineDown => "line_down"@,
        Internal::LineUp => "line_up"@,
        Internal::StartEndPanel => "start_end_panel"@,
        Internal::NextMatch => "next_match"@,
        Internal::NoSort => "no_sort"@,
        Internal::OpenStay => "open_stay"@,
        Internal::OpenStayFilter => "open_stay_filter"@,
        Internal::Parent => "parent"@,
        Internal::PageDown => "page_down"@,
        Internal::PageUp => "page_up"@,
        Internal::PanelLeft => "panel_left"@,
        Internal::PanelRight => "panel_right"@,
        Internal::PrintPath => "print_path"@,
        Internal::PrintRelativePath => "print_relative_path"@,
        Internal::PrintTree => "print_tree"@,
        Internal::Quit => "quit"@,
        Internal::Refresh => "refresh"@,
        Internal::SortByCount => "sort_by_count"@,
        Internal::SortByDate => "sort_by_date"@,
        Internal::SortBySize => "sort_by_size"@,
        Internal::ToggleCounts => "toggle_counts"@,
        Internal::ToggleDates => "toggle_dates"@,
        Internal::ToggleFiles => "toggle_files"@,
        Internal::ToggleGitIgnore => "toggle_git_ignore"@,
        Internal::ToggleGitFileInfo => "toggle_git_file_info"@,
        Internal::ToggleGitStatus => "toggle_git_status"@,
        Internal::ToggleRootFs => "toggle_root_fs"@,
        Internal::ToggleHidden => "toggle_hidden"@,
        Internal::TogglePerm => "toggle_perm"@,
        Internal::ToggleSizes => "toggle_sizes"@,
        Internal::ToggleTrimRoot => "toggle_trim_root"@,
        Internal::TotalSearch => "total_search"@,
        Internal::UpTree => "up_tree"@,
    }
}

/// What each action does, in a few words.
pub open spec fn action_description(a: Internal) -> Seq<char> {
    match a {
        Internal::Back => "revert to the previous state"@,
        Internal::OpenLeave => "open the selection with the system and quit"@,
        Internal::OpenPreview => "open the preview panel"@,
        Internal::ClosePreview => "close the preview panel"@,
        Internal::TogglePreview => "open or close the preview panel"@,
        Internal::PreviewImage => "preview the selection as an image"@,
        Internal::PreviewText => "preview the selection as text"@,
        Internal::PreviewBinary => "preview the selection as binary"@,
        Internal::ClosePanelOk => "close the panel, validating the selection"@,
        Internal::ClosePanelCancel => "close the panel, not using the selection"@,
        Internal::CopyPath => "copy the selected path to the clipboard"@,
        Internal::Filesystems => "list the mounted filesystems"@,
        Internal::Focus => "display the directory"@,
        Internal::Help => "display the help"@,
        Internal::InputPaste => "paste the clipboard into the input"@,
        Internal::LineDown => "move one line down"@,
        Internal::LineUp => "move one line up"@,
        Internal::StartEndPanel => "start or end a panel session"@,
        Internal::NextMatch => "select the next match"@,
        Internal::NoSort => "do not sort"@,
        Internal::OpenStay => "open the selection with the system and stay"@,
        Internal::OpenStayFilter => "display the directory, keeping the filter"@,
        Internal::Parent => "move to the parent directory"@,
        Internal::PageDown => "scroll one page down"@,
        Internal::PageUp => "scroll one page up"@,
        Internal::PanelLeft => "focus the panel on the left"@,
        Internal::PanelRight => "focus the panel on the right"@,
        Internal::PrintPath => "print the path and quit"@,
        Internal::PrintRelativePath => "print the relative path and quit"@,
        Internal::PrintTree => "print the tree and quit"@,
        Internal::Quit => "quit"@,
        Internal::Refresh => "refresh the tree"@,
        Internal::SortByCount => "sort by count"@,
        Internal::SortByDate => "sort by date"@,
        Internal::SortBySize => "sort by size"@,
        Internal::ToggleCounts => "toggle showing the counts of files"@,
        Internal::ToggleDates => "toggle showing the last modified dates"@,
        Internal::ToggleFiles => "toggle showing files"@,
        Internal::ToggleGitIgnore => "toggle the use of gitignore rules"@,
        Internal::ToggleGitFileInfo => "toggle showing the git status of files"@,
        Internal::ToggleGitStatus => "toggle showing only files with a git status"@,
        Internal::ToggleRootFs => "toggle showing the filesystem of the root"@,
        Internal::ToggleHidden => "toggle showing hidden files"@,
        Internal::TogglePerm => "toggle showing the permissions"@,
        Internal::ToggleSizes => "toggle showing the sizes"@,
        Internal::ToggleTrimRoot => "toggle trimming the root"@,
        Internal::TotalSearch => "search again with no limit"@,
        Internal::UpTree => "focus the parent directory"@,
    }
}

impl Internal {
    /// The name of the action, which is also the pattern that invokes it.
    pub fn name(self) -> (r: &'static str)
        ensures
            r@ == action_name(self),
            is_plain_word(r@),
    {
        match self {
            Internal::Back => {
                proof {
                    reveal_strlit("back");
                }
                "back"
            },
            Internal::OpenLeave => {
                proof {
                    reveal_strlit("open_leave");
                }
                "open_leave"
            },
            Internal::OpenPreview => {
                proof {
                    reveal_strlit("open_preview");
                }
                "open_preview"
            },
            Internal::ClosePreview => {
                proof {
                    reveal_strlit("close_preview");
                }
                "close_preview"
            },
            Internal::TogglePreview => {
                proof {
                    reveal_strlit("toggle_preview");
                }
                "toggle_preview"
            },
            Internal::PreviewImage => {
                proof {
                    reveal_strlit("preview_image");
                }
                "preview_image"
            },
            Internal::PreviewText => {
                proof {
                    reveal_strlit("preview_text");
                }
                "preview_text"
            },
            Internal::PreviewBinary => {
                proof {
                    reveal_strlit("preview_binary");
                }
                "preview_binary"
            },
            Internal::ClosePanelOk => {
                proof {
                    reveal_strlit("close_panel_ok");
                }
                "close_panel_ok"
            },
            Internal::ClosePanelCancel => {
                proof {
                    reveal_strlit("close_panel_cancel");
                }
                "close_panel_cancel"
            },
            Internal::CopyPath => {
                proof {
                    reveal_strlit("copy_path");
                }
                "copy_path"
            },
            Internal::Filesystems => {
                proof {
                    reveal_strlit("filesystems");
                }
                "filesystems"
            },
            Internal::Focus => {
                proof {
                    reveal_strlit("focus");
                }
                "focus"
            },
            Internal::Help => {
                proof {
                    reveal_strlit("help");
                }
                "help"
            },
            Internal::InputPaste => {
                proof {
                    reveal_strlit("input_paste");
                }
                "input_paste"
            },
            Internal::LineDown => {
                proof {
                    reveal_strlit("line_down");
                }
                "line_down"
            },
            Internal::LineUp => {
                proof {
                    reveal_strlit("line_up");
                }
                "line_up"
            },
            Internal::StartEndPanel => {
                proof {
                    reveal_strlit("start_end_panel");
                }
                "start_end_panel"
            },
            Internal::NextMatch => {
                proof {
                    reveal_strlit("next_match");
                }
                "next_match"
            },
            Internal::NoSort => {
                proof {
                    reveal_strlit("no_sort");
                }
                "no_sort"
            },
            Internal::OpenStay => {
                proof {
                    reveal_strlit("open_stay");
                }
                "open_stay"
            },
            Internal::OpenStayFilter => {
                proof {
                    reveal_strlit("open_stay_filter");
                }
                "open_stay_filter"
            },
            Internal::Parent => {
                proof {
                    reveal_strlit("parent");
                }
                "parent"
            },
            Internal::PageDown => {
                proof {
                    reveal_strlit("page_down");
                }
                "page_down"
            },
            Internal::PageUp => {
                proof {
                    reveal_strlit("page_up");
                }
                "page_up"
            },
            Internal::PanelLeft => {
                proof {
                    reveal_strlit("panel_left");
                }
                "panel_left"
            },
            Internal::PanelRight => {
                proof {
                    reveal_strlit("panel_right");
                }
                "panel_right"
            },
            Internal::PrintPath => {
                proof {
                    reveal_strlit("print_path");
                }
                "print_path"
            },
            Internal::PrintRelativePath => {
                proof {
                    reveal_strlit("print_relative_path");
                }
                "print_relative_path"
            },
            Internal::PrintTree => {
                proof {
                    reveal_strlit("print_tree");
                }
                "print_tree"
            },
            Internal::Quit => {
                proof {
                    reveal_strlit("quit");
                }
                "quit"
            },
            Internal::Refresh => {
                proof {
                    reveal_strlit("refresh");
                }
                "refresh"
            },
            Internal::SortByCount => {
                proof {
                    reveal_strlit("sort_by_count");
                }
                "sort_by_count"
            },
            Internal::SortByDate => {
                proof {
                    reveal_strlit("sort_by_date");
                }
                "sort_by_date"
            },
            Internal::SortBySize => {
                proof {
                    reveal_strlit("sort_by_size");
                }
                "sort_by_size"
            },
            Internal::ToggleCounts => {
                proof {
                    reveal_strlit("toggle_counts");
                }
                "toggle_counts"
            },
            Internal::ToggleDates => {
                proof {
                    reveal_strlit("toggle_dates");
                }
                "toggle_dates"
            },
            Internal::ToggleFiles => {
                proof {
                    reveal_strlit("toggle_files");
                }
                "toggle_files"
            },
            Internal::ToggleGitIgnore => {
                proof {
                    reveal_strlit("toggle_git_ignore");
                }
                "toggle_git_ignore"
            },
            Internal::ToggleGitFileInfo => {
                proof {
                    reveal_strlit("toggle_git_file_info");
                }
                "toggle_git_file_info"
            },
            Internal::ToggleGitStatus => {
                proof {
                    reveal_strlit("toggle_git_status");
                }
                "toggle_git_status"
            },
            Internal::ToggleRootFs => {
                proof {
                    reveal_strlit("toggle_root_fs");
                }
                "toggle_root_fs"
            },
            Internal::ToggleHidden => {
                proof {
                    reveal_strlit("toggle_hidden");
                }
                "toggle_hidden"
            },
            Internal::TogglePerm => {
                proof {
                    reveal_strlit("toggle_perm");
                }
                "toggle_perm"
            },
            Internal::ToggleSizes => {
                proof {
                    reveal_strlit("toggle_sizes");
                }
                "toggle_sizes"
            },
            Internal::ToggleTrimRoot => {
                proof {
                    reveal_strlit("toggle_trim_root");
                }
                "toggle_trim_root"
            },
            Internal::TotalSearch => {
                proof {
                    reveal_strlit("total_search");
                }
                "total_search"
            },
            Internal::UpTree => {
                proof {
                    reveal_strlit("up_tree");
                }
                "up_tree"
            },
        }
    }

    /// What the action does, in a few words.
    pub fn description(self) -> (r: &'static str)
        ensures
            r@ == action_description(self),
    {
        match self {
            Internal::Back => "revert to the previous state",
            Internal::OpenLeave => "open the selection with the system and quit",
            Internal::OpenPreview => "open the preview panel",
            Internal::ClosePreview => "close the preview panel",
            Internal::TogglePreview => "open or close the preview panel",
            Internal::PreviewImage => "preview the selection as an image",
            Internal::PreviewText => "preview the selection as text",
            Internal::PreviewBinary => "preview the selection as binary",
            Internal::ClosePanelOk => "close the panel, validating the selection",
            Internal::ClosePanelCancel => "close the panel, not using the selection",
            Internal::CopyPath => "copy the selected path to the clipboard",
            Internal::Filesystems => "list the mounted filesystems",
            Internal::Focus => "display the directory",
            Internal::Help => "display the help",
            Internal::InputPaste => "paste the clipboard into the input",
            Internal::LineDown => "move one line down",
            Internal::LineUp => "move one line up",
            Internal::StartEndPanel => "start or end a panel session",
            Internal::NextMatch => "select the next match",
            Internal::NoSort => "do not sort",
            Internal::OpenStay => "open the selection with the system and stay",
            Internal::OpenStayFilter => "display the directory, keeping the filter",
            Internal::Parent => "move to the parent directory",
            Internal::PageDown => "scroll one page down",
            Internal::PageUp => "scroll one page up",
            Internal::PanelLeft => "focus the panel on the left",
            Internal::PanelRight => "focus the panel on the right",
            Internal::PrintPath => "print the path and quit",
            Internal::PrintRelativePath => "print the relative path and quit",
            Internal::PrintTree => "print the tree and quit",
            Internal::Quit => "quit",
            Internal::Refresh => "refresh the tree",
            Internal::SortByCount => "sort by count",
            Internal::SortByDate => "sort by date",
            Internal::SortBySize => "sort by size",
            Internal::ToggleCounts => "toggle showing the counts of files",
            Internal::ToggleDates => "toggle showing the last modified dates",
            Internal::ToggleFiles => "toggle showing files",
            Internal::ToggleGitIgnore => "toggle the use of gitignore rules",
            Internal::ToggleGitFileInfo => "toggle showing the git status of files",
            Internal::ToggleGitStatus => "toggle showing only files with a git status",
            Internal::ToggleRootFs => "toggle showing the filesystem of the root",
            Internal::ToggleHidden => "toggle showing hidden files",
            Internal::TogglePerm => "toggle showing the permissions",
            Internal::ToggleSizes => "toggle showing the sizes",
            Internal::ToggleTrimRoot => "toggle trimming the root",
            Internal::TotalSearch => "search again with no limit",
            Internal::UpTree => "focus the parent directory",
        }
    }
}

} // verus!
