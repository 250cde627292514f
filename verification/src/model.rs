//! The records the orchestration core works on, each with its mathematical view.

use vstd::prelude::*;

verus! {

/// The one signing identity of a tracked channel.
#[derive(Debug)]
pub struct ChannelIdentity {
    /// External channel identifier; the natural key.
    pub channel_key: String,
    /// Name shown in the channel's profile.
    pub display_name: String,
    /// Address of the channel's avatar image; empty while unknown.
    pub avatar_url: String,
    /// Public key in its text encoding.
    pub public_key: String,
    /// Secret key in its text encoding.
    pub private_key: String,
    /// The upstream's own identifier for the channel; empty while unknown.
    pub remote_channel_id: String,
}

/// Mathematical view of a [`ChannelIdentity`].
pub struct ChannelIdentityView {
    pub channel_key: Seq<char>,
    pub display_name: Seq<char>,
    pub avatar_url: Seq<char>,
    pub public_key: Seq<char>,
    pub private_key: Seq<char>,
    pub remote_channel_id: Seq<char>,
}

impl View for ChannelIdentity {
    type V = ChannelIdentityView;

    open spec fn view(&self) -> ChannelIdentityView {
        ChannelIdentityView {
            channel_key: self.channel_key@,
            display_name: self.display_name@,
            avatar_url: self.avatar_url@,
            public_key: self.public_key@,
            private_key: self.private_key@,
            remote_channel_id: self.remote_channel_id@,
        }
    }
}

impl Clone for ChannelIdentity {
    fn clone(&self) -> (r: Self)
        ensures
            r@ == self@,
    {
        ChannelIdentity {
            channel_key: self.channel_key.clone(),
            display_name: self.display_name.clone(),
            avatar_url: self.avatar_url.clone(),
            public_key: self.public_key.clone(),
            private_key: self.private_key.clone(),
            remote_channel_id: self.remote_channel_id.clone(),
        }
    }
}

/// What the upstream tells about a channel that has no identity yet.
#[derive(Debug)]
pub struct ChannelMetadata {
    pub display_name: String,
    pub avatar_url: String,
    pub remote_channel_id: String,
}

/// Mathematical view of a [`ChannelMetadata`].
pub struct ChannelMetadataView {
    pub display_name: Seq<char>,
    pub avatar_url: Seq<char>,
    pub remote_channel_id: Seq<char>,
}

impl View for ChannelMetadata {
    type V = ChannelMetadataView;

    open spec fn view(&self) -> ChannelMetadataView {
        ChannelMetadataView {
            display_name: self.display_name@,
            avatar_url: self.avatar_url@,
            remote_channel_id: self.remote_channel_id@,
        }
    }
}

impl Clone for ChannelMetadata {
    fn clone(&self) -> (r: Self)
        ensures
            r@ == self@,
    {
        ChannelMetadata {
            display_name: self.display_name.clone(),
            avatar_url: self.avatar_url.clone(),
            remote_channel_id: self.remote_channel_id.clone(),
        }
    }
}

/// A freshly generated key pair, both halves in their text encoding.
#[derive(Debug)]
pub struct MyKey {
    pub public_key: String,
    pub secret_key: String,
}

/// Mathematical view of a [`MyKey`].
pub struct MyKeyView {
    pub public_key: Seq<char>,
    pub secret_key: Seq<char>,
}

impl View for MyKey {
    type V = MyKeyView;

    open spec fn view(&self) -> MyKeyView {
        MyKeyView { public_key: self.public_key@, secret_key: self.secret_key@ }
    }
}

impl Clone for MyKey {
    fn clone(&self) -> (r: Self)
        ensures
            r@ == self@,
    {
        MyKey { public_key: self.public_key.clone(), secret_key: self.secret_key.clone() }
    }
}

/// The ledger's record of one item that was accepted for publishing.
#[derive(Debug)]
pub struct IngestedItem {
    pub channel_key: String,
    pub title: String,
    /// The natural key: no two records share a link.
    pub link: String,
    pub author: String,
    pub published_flag: bool,
}

/// Mathematical view of an [`IngestedItem`].
pub struct IngestedItemView {
    pub channel_key: Seq<char>,
    pub title: Seq<char>,
    pub link: Seq<char>,
    pub author: Seq<char>,
    pub published_flag: bool,
}

impl View for IngestedItem {
    type V = IngestedItemView;

    open spec fn view(&self) -> IngestedItemView {
        IngestedItemView {
            channel_key: self.channel_key@,
            title: self.title@,
            link: self.link@,
            author: self.author@,
            published_flag: self.published_flag,
        }
    }
}

impl Clone for IngestedItem {
    fn clone(&self) -> (r: Self)
        ensures
            r@ == self@,
    {
        IngestedItem {
            channel_key: self.channel_key.clone(),
            title: self.title.clone(),
            link: self.link.clone(),
            author: self.author.clone(),
            published_flag: self.published_flag,
        }
    }
}

/// The identity that a channel gets from its metadata and a fresh key pair.
pub open spec fn minted(
    channel_key: Seq<char>,
    metadata: ChannelMetadataView,
    keys: MyKeyView,
) -> ChannelIdentityView {
    ChannelIdentityView {
        channel_key,
        display_name: metadata.display_name,
        avatar_url: metadata.avatar_url,
        public_key: keys.public_key,
        private_key: keys.secret_key,
        remote_channel_id: metadata.remote_channel_id,
    }
}

impl ChannelIdentity {
    /// Builds the identity of `channel_key` from its metadata and a fresh key pair.
    pub fn mint(channel_key: &str, metadata: &ChannelMetadata, keys: &MyKey) -> (r: ChannelIdentity)
        ensures
            r@ == minted(channel_key@, metadata@, keys@),
    {
        ChannelIdentity {
            channel_key: channel_key.to_owned(),
            display_name: metadata.display_name.clone(),
            avatar_url: metadata.avatar_url.clone(),
            public_key: keys.public_key.clone(),
            private_key: keys.secret_key.clone(),
            remote_channel_id: metadata.remote_channel_id.clone(),
        }
    }
}

} // verus!
