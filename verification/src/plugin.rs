//! What a ticket carries besides its name: its attribute list, the three
//! permanent permission delegates and the venue's data channel.

use vstd::prelude::*;

use crate::attribute::{Attribute, AttributeView};
use crate::identity::Identity;

verus! {

/// Who controls a plugin or may write to a data channel.
#[derive(Clone, Copy, Debug, PartialEq, Eq)]
pub enum Authority {
    /// Whoever is the update authority of the ticket.
    UpdateAuthority,
    /// The account with this identity.
    Address { address: Identity },
}

/// A capability or a piece of data attached to a ticket when it is created.
#[derive(Clone, Debug, PartialEq, Eq)]
pub enum Plugin {
    /// The ticket's descriptive attributes, in order.
    Attributes { attribute_list: Vec<Attribute> },
    /// The right to freeze the ticket; a frozen ticket cannot change hands.
    PermanentFreeze { frozen: bool },
    /// The right to burn the ticket.
    PermanentBurn,
    /// The right to move the ticket to another owner.
    PermanentTransfer,
}

/// What a [`Plugin`] holds, as plain values.
pub enum PluginView {
    Attributes { attribute_list: Seq<AttributeView> },
    PermanentFreeze { frozen: bool },
    PermanentBurn,
    PermanentTransfer,
}

impl DeepView for Plugin {
    type V = PluginView;

    open spec fn deep_view(&self) -> PluginView {
        match self {
            Plugin::Attributes { attribute_list } => PluginView::Attributes {
                attribute_list: attribute_list.deep_view(),
            },
            Plugin::PermanentFreeze { frozen } => PluginView::PermanentFreeze { frozen: *frozen },
            Plugin::PermanentBurn => PluginView::PermanentBurn,
            Plugin::PermanentTransfer => PluginView::PermanentTransfer,
        }
    }
}

impl View for Plugin {
    type V = PluginView;

    open spec fn view(&self) -> PluginView {
        self.deep_view()
    }
}

/// A plugin together with the authority that controls it.
#[derive(Clone, Debug, PartialEq, Eq)]
pub struct AuthorizedPlugin {
    pub plugin: Plugin,
    pub authority: Option<Authority>,
}

/// What an [`AuthorizedPlugin`] holds, as plain values.
pub struct AuthorizedPluginView {
    pub plugin: PluginView,
    pub authority: Option<Authority>,
}

impl DeepView for AuthorizedPlugin {
    type V = AuthorizedPluginView;

    open spec fn deep_view(&self) -> AuthorizedPluginView {
        AuthorizedPluginView { plugin: self.plugin.deep_view(), authority: self.authority }
    }
}

impl View for AuthorizedPlugin {
    type V = AuthorizedPluginView;

    open spec fn view(&self) -> AuthorizedPluginView {
        self.deep_view()
    }
}

/// How the data written to a channel is encoded.
#[derive(Clone, Copy, Debug, PartialEq, Eq)]
pub enum DataSchema {
    Binary,
    Json,
    MsgPack,
}

/// A channel through which one authority may attach data to the ticket after
/// it has been issued. Creating the ticket opens the channel and writes
/// nothing to it.
#[derive(Clone, Copy, Debug, PartialEq, Eq)]
pub struct AppDataChannel {
    /// Who controls the channel itself.
    pub init_plugin_authority: Option<Authority>,
    /// Who may write data to it.
    pub data_authority: Authority,
    pub schema: Option<DataSchema>,
}

/// A plugin under the control of the ticket's update authority.
pub open spec fn under_update_authority(plugin: PluginView) -> AuthorizedPluginView {
    AuthorizedPluginView { plugin, authority: Some(Authority::UpdateAuthority) }
}

/// The three permission delegates of a ticket, all under the update
/// authority: freeze, with the ticket frozen unless the collection lets its
/// tickets change hands; then burn and transfer, which do not depend on
/// anything.
pub open spec fn permission_delegates_spec(transferable: bool) -> Seq<AuthorizedPluginView> {
    seq![
        under_update_authority(PluginView::PermanentFreeze { frozen: !transferable }),
        under_update_authority(PluginView::PermanentBurn),
        under_update_authority(PluginView::PermanentTransfer),
    ]
}

/// The plugins of a new ticket: its attribute list, then its three permission
/// delegates.
pub open spec fn ticket_plugins_spec(attributes: Seq<AttributeView>, transferable: bool) -> Seq<
    AuthorizedPluginView,
> {
    seq![under_update_authority(PluginView::Attributes { attribute_list: attributes })]
        + permission_delegates_spec(transferable)
}

/// The data channel of a ticket: controlled by the update authority, written
/// by the venue, binary.
pub open spec fn venue_data_channel_spec(venue_authority: Identity) -> AppDataChannel {
    AppDataChannel {
        init_plugin_authority: Some(Authority::UpdateAuthority),
        data_authority: Authority::Address { address: venue_authority },
        schema: Some(DataSchema::Binary),
    }
}

/// Builds the three permission delegates of a ticket.
pub fn permission_delegates(transferable: bool) -> (r: Vec<AuthorizedPlugin>)
    ensures
        r.deep_view() == permission_delegates_spec(transferable),
{
    let mut delegates: Vec<AuthorizedPlugin> = Vec::new();
    delegates.push(
        AuthorizedPlugin {
            plugin: Plugin::PermanentFreeze { frozen: !transferable },
            authority: Some(Authority::UpdateAuthority),
        },
    );
    delegates.push(
        AuthorizedPlugin {
            plugin: Plugin::PermanentBurn,
            authority: Some(Authority::UpdateAuthority),
        },
    );
    delegates.push(
        AuthorizedPlugin {
            plugin: Plugin::PermanentTransfer,
            authority: Some(Authority::UpdateAuthority),
        },
    );
    assert(delegates.deep_view() =~= permission_delegates_spec(transferable));
    delegates
}

/// Builds the plugins of a new ticket from its attribute list and the
/// collection's transferability.
pub fn ticket_plugins(attributes: Vec<Attribute>, transferable: bool) -> (r: Vec<AuthorizedPlugin>)
    ensures
        r.deep_view() == ticket_plugins_spec(attributes.deep_view(), transferable),
{
    let ghost attribute_views = attributes.deep_view();
    let mut plugins: Vec<AuthorizedPlugin> = Vec::new();
    plugins.push(
        AuthorizedPlugin {
            plugin: Plugin::Attributes { attribute_list: attributes },
            authority: Some(Authority::UpdateAuthority),
        },
    );
    let mut delegates: Vec<AuthorizedPlugin> = permission_delegates(transferable);
    let ghost delegate_views = delegates.deep_view();
    plugins.append(&mut delegates);
    assert(plugins.deep_view() =~= ticket_plugins_spec(attribute_views, transferable));
    plugins
}

/// Opens the venue's data channel.
pub fn venue_data_channel(venue_authority: Identity) -> (r: AppDataChannel)
    ensures
        r == venue_data_channel_spec(venue_authority),
{
    AppDataChannel {
        init_plugin_authority: Some(Authority::UpdateAuthority),
        data_authority: Authority::Address { address: venue_authority },
        schema: Some(DataSchema::Binary),
    }
}

} // verus!
