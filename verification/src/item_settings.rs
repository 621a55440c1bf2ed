//! The settings of the tabs of items.

use vstd::prelude::*;

verus! {

/// The key of these settings in the settings file.
pub const ITEM_SETTINGS_KEY: &'static str = "tabs";

/// The side of a tab on which its close button stands.
#[derive(Clone, Copy, PartialEq, Eq, Structural, Debug)]
pub enum ClosePosition {
    Left,
    Right,
}

impl Default for ClosePosition {
    fn default() -> (position: Self)
        ensures
            position == ClosePosition::Right,
    {
        ClosePosition::Right
    }
}

impl ClosePosition {
    pub fn right(&self) -> (right: bool)
        ensures
            right == (*self == ClosePosition::Right),
    {
        match self {
            ClosePosition::Left => false,
            ClosePosition::Right => true,
        }
    }
}

#[derive(Clone, Copy, PartialEq, Eq, Structural, Debug)]
pub struct ItemSettings {
    pub git_status: bool,
    pub close_position: ClosePosition,
}

/// The settings as one settings file gives them: what it leaves out is `None`.
#[derive(Clone, Copy, Debug)]
pub struct ItemSettingsContent {
    /// Whether to show the Git file status on a tab item.
    ///
    /// Default: true
    pub git_status: Option<bool>,
    /// Position of the close button in a tab.
    ///
    /// Default: right
    pub close_position: Option<ClosePosition>,
}

impl Default for ItemSettingsContent {
    fn default() -> (content: Self)
        ensures
            content.git_status is None,
            content.close_position is None,
    {
        ItemSettingsContent { git_status: None, close_position: None }
    }
}

/// The first setting for which no file gave a value.
#[derive(Clone, Copy, PartialEq, Eq, Structural, Debug)]
pub enum MissingSetting {
    GitStatus,
    ClosePosition,
}

/// The value that was given last, starting with `first`.
pub open spec fn last_given<T>(first: Option<T>, later: Seq<Option<T>>) -> Option<T>
    decreases later.len(),
{
    if later.len() == 0 {
        first
    } else if later.last() is Some {
        later.last()
    } else {
        last_given(first, later.drop_last())
    }
}

/// The Git status setting of each file.
pub open spec fn git_statuses(files: Seq<&ItemSettingsContent>) -> Seq<Option<bool>> {
    files.map_values(|file: &ItemSettingsContent| file.git_status)
}

/// The close position setting of each file.
pub open spec fn close_positions(files: Seq<&ItemSettingsContent>) -> Seq<Option<ClosePosition>> {
    files.map_values(|file: &ItemSettingsContent| file.close_position)
}

/// The settings that the default file and the users' files make together: each
/// setting has the value that was given last, and none may be missing.
pub open spec fn merged(default_value: ItemSettingsContent, user_values: Seq<
    &ItemSettingsContent,
>) -> Result<ItemSettings, MissingSetting> {
    match (
        last_given(default_value.git_status, git_statuses(user_values)),
        last_given(default_value.close_position, close_positions(user_values)),
    ) {
        (Some(git_status), Some(close_position)) => Ok(
            ItemSettings { git_status, close_position },
        ),
        (None, _) => Err(MissingSetting::GitStatus),
        (_, None) => Err(MissingSetting::ClosePosition),
    }
}

impl ItemSettings {
    /// Merges the default settings with those of the users, of which the later
    /// win over the earlier.
    pub fn load(default_value: &ItemSettingsContent, user_values: &[&ItemSettingsContent]) -> (settings:
        Result<Self, MissingSetting>)
        ensures
            settings == merged(*default_value, user_values@),
    {
        let mut git_status: Option<bool> = default_value.git_status;
        let mut close_position: Option<ClosePosition> = default_value.close_position;
        let mut next: usize = 0;
        while next < user_values.len()
            invariant
                next <= user_values@.len(),
                git_status == last_given(
                    default_value.git_status,
                    git_statuses(user_values@.take(next as int)),
                ),
                close_position == last_given(
                    default_value.close_position,
                    close_positions(user_values@.take(next as int)),
                ),
            decreases user_values@.len() - next,
        {
            let file = user_values[next];
            if file.git_status.is_some() {
                git_status = file.git_status;
            }
            if file.close_position.is_some() {
                close_position = file.close_position;
            }
            proof {
                let before = user_values@.take(next as int);
                let after = user_values@.take(next + 1);
                assert(git_statuses(after).drop_last() =~= git_statuses(before));
                assert(close_positions(after).drop_last() =~= close_positions(before));
            }
            next = next + 1;
        }
        assert(user_values@.take(next as int) =~= user_values@);
        match (git_status, close_position) {
            (Some(git_status), Some(close_position)) => Ok(
                ItemSettings { git_status, close_position },
            ),
            (None, _) => Err(MissingSetting::GitStatus),
            (_, None) => Err(MissingSetting::ClosePosition),
        }
    }
}

proof fn lemma_last_given_of_some<T>(first: Option<T>, later: Seq<Option<T>>)
    requires
        first is Some,
    ensures
        last_given(first, later) is Some,
    decreases later.len(),
{
    if later.len() > 0 && later.last() is None {
        lemma_last_given_of_some(first, later.drop_last());
    }
}

/// With a default for every setting, loading never fails, whatever the users' files hold.
pub proof fn law_complete_defaults_load(
    default_value: ItemSettingsContent,
    user_values: Seq<&ItemSettingsContent>,
)
    requires
        default_value.git_status is Some,
        default_value.close_position is Some,
    ensures
        merged(default_value, user_values) is Ok,
{
    lemma_last_given_of_some(default_value.git_status, git_statuses(user_values));
    lemma_last_given_of_some(default_value.close_position, close_positions(user_values));
}

/// A file that is read last overrides what it gives, and nothing else.
pub proof fn law_last_file_wins(
    default_value: ItemSettingsContent,
    user_values: Seq<&ItemSettingsContent>,
    last: &ItemSettingsContent,
)
    ensures
        ({
            let after = user_values.push(last);
            &&& last_given(default_value.git_status, git_statuses(after)) == (
            if last.git_status is Some {
                last.git_status
            } else {
                last_given(default_value.git_status, git_statuses(user_values))
            })
            &&& last_given(default_value.close_position, close_positions(after)) == (
            if last.close_position is Some {
                last.close_position
            } else {
                last_given(default_value.close_position, close_positions(user_values))
            })
        }),
        merged(default_value, user_values) matches Ok(before) ==> merged(
            default_value,
            user_values.push(last),
        ) == Ok::<ItemSettings, MissingSetting>(
            ItemSettings {
                git_status: last.git_status.unwrap_or(before.git_status),
                close_position: last.close_position.unwrap_or(before.close_position),
            },
        ),
{
    let after = user_values.push(last);
    assert(git_statuses(after).drop_last() =~= git_statuses(user_values));
    assert(close_positions(after).drop_last() =~= close_positions(user_values));
}

proof fn lemma_last_given_is<T>(first: Option<T>, later: Seq<Option<T>>, from: int)
    requires
        0 <= from < later.len(),
        later[from] is Some,
        forall|j: int| from < j < later.len() ==> #[trigger] later[j] is None,
    ensures
        last_given(first, later) == later[from],
    decreases later.len(),
{
    if from < later.len() - 1 {
        assert(later[later.len() - 1] is None);
        lemma_last_given_is(first, later.drop_last(), from);
    }
}

proof fn lemma_last_given_is_first<T>(first: Option<T>, later: Seq<Option<T>>)
    requires
        forall|j: int| 0 <= j < later.len() ==> #[trigger] later[j] is None,
    ensures
        last_given(first, later) == first,
    decreases later.len(),
{
    if later.len() > 0 {
        assert(later[later.len() - 1] is None);
        lemma_last_given_is_first(first, later.drop_last());
    }
}

/// The file at `from` gives a value, and none of those after it does. The default
/// file stands before all others, at -1.
pub open spec fn is_last_to_give<T>(first: Option<T>, later: Seq<Option<T>>, from: int) -> bool {
    &&& -1 <= from < later.len()
    &&& if from == -1 {
        first is Some
    } else {
        later[from] is Some
    }
    &&& forall|j: int| from < j < later.len() ==> #[trigger] later[j] is None
}

/// Each setting has the value from the last file that gives one, and it does not
/// matter which file gives the other setting. With both given, loading succeeds.
pub proof fn law_each_setting_from_the_last_to_give_it(
    default_value: ItemSettingsContent,
    user_values: Seq<&ItemSettingsContent>,
    status_from: int,
    position_from: int,
)
    requires
        is_last_to_give(
            default_value.git_status,
            Seq::new(user_values.len(), |i: int| user_values[i].git_status),
            status_from,
        ),
        is_last_to_give(
            default_value.close_position,
            Seq::new(user_values.len(), |i: int| user_values[i].close_position),
            position_from,
        ),
    ensures
        merged(default_value, user_values) matches Ok(settings) && {
            &&& Some(settings.git_status) == (if status_from == -1 {
                default_value.git_status
            } else {
                user_values[status_from].git_status
            })
            &&& Some(settings.close_position) == (if position_from == -1 {
                default_value.close_position
            } else {
                user_values[position_from].close_position
            })
        },
{
    let statuses = Seq::new(user_values.len(), |i: int| user_values[i].git_status);
    let positions = Seq::new(user_values.len(), |i: int| user_values[i].close_position);
    assert(git_statuses(user_values) =~= statuses);
    assert(close_positions(user_values) =~= positions);
    if status_from == -1 {
        lemma_last_given_is_first(default_value.git_status, statuses);
    } else {
        lemma_last_given_is(default_value.git_status, statuses, status_from);
    }
    if position_from == -1 {
        lemma_last_given_is_first(default_value.close_position, positions);
    } else {
        lemma_last_given_is(default_value.close_position, positions, position_from);
    }
}

proof fn lemma_given_by_some<T>(first: Option<T>, later: Seq<Option<T>>)
    ensures
        last_given(first, later) is Some <==> first is Some || exists|j: int|
            0 <= j < later.len() && #[trigger] later[j] is Some,
    decreases later.len(),
{
    if later.len() > 0 {
        let front = later.drop_last();
        lemma_given_by_some(first, front);
        if later.last() is Some {
            assert(later[later.len() - 1] is Some);
        } else {
            if exists|j: int| 0 <= j < front.len() && #[trigger] front[j] is Some {
                let j = choose|j: int| 0 <= j < front.len() && #[trigger] front[j] is Some;
                assert(later[j] is Some);
            }
            if exists|j: int| 0 <= j < later.len() && #[trigger] later[j] is Some {
                let j = choose|j: int| 0 <= j < later.len() && #[trigger] later[j] is Some;
                assert(front[j] is Some);
            }
        }
    }
}

/// Loading fails if and only if there is a setting that no file gives, and names it;
/// if both are missing, it names the Git status.
pub proof fn law_missing_setting_is_named(
    default_value: ItemSettingsContent,
    user_values: Seq<&ItemSettingsContent>,
)
    ensures
        ({
            let status_given = default_value.git_status is Some || exists|j: int|
                0 <= j < user_values.len() && #[trigger] user_values[j].git_status is Some;
            let position_given = default_value.close_position is Some || exists|j: int|
                0 <= j < user_values.len() && #[trigger] user_values[j].close_position is Some;
            let loaded = merged(default_value, user_values);
            &&& loaded is Ok <==> status_given && position_given
            &&& loaded == Err::<ItemSettings, MissingSetting>(MissingSetting::GitStatus)
                <==> !status_given
            &&& loaded == Err::<ItemSettings, MissingSetting>(MissingSetting::ClosePosition)
                <==> status_given && !position_given
        }),
{
    let statuses = git_statuses(user_values);
    let positions = close_positions(user_values);
    lemma_given_by_some(default_value.git_status, statuses);
    lemma_given_by_some(default_value.close_position, positions);
    assert forall|j: int| 0 <= j < user_values.len() implies #[trigger] user_values[j].git_status
        == statuses[j] by {}
    assert forall|j: int|
        0 <= j < user_values.len() implies #[trigger] user_values[j].close_position
        == positions[j] by {}
    if exists|j: int| 0 <= j < statuses.len() && #[trigger] statuses[j] is Some {
        let j = choose|j: int| 0 <= j < statuses.len() && #[trigger] statuses[j] is Some;
        assert(user_values[j].git_status is Some);
    }
    if exists|j: int| 0 <= j < positions.len() && #[trigger] positions[j] is Some {
        let j = choose|j: int| 0 <= j < positions.len() && #[trigger] positions[j] is Some;
        assert(user_values[j].close_position is Some);
    }
}

} // verus!
