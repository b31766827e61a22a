use vstd::prelude::*;

verus! {

/// One peer to poll: where it is reached and how many seconds lie between
/// two polls.
#[derive(Debug)]
pub struct PeerConfig {
    pub peer_address: String,
    pub polling_interval: u64,
}

/// A configuration value that the service cannot run with.
#[derive(Debug, PartialEq, Eq, Structural)]
pub enum ConfigError {
    /// The bounded store was given no room.
    ZeroStorageSize,
    /// The mailbox of the storage actor was given no room.
    ZeroChannelSize,
    /// A peer was given a polling interval of zero seconds.
    ZeroPollingInterval,
}

impl PeerConfig {
    pub fn new(peer_address: String, polling_interval: u64) -> (r: PeerConfig)
        ensures
            r.peer_address == peer_address,
            r.polling_interval == polling_interval,
    {
        PeerConfig { peer_address, polling_interval }
    }

    /// Checks that the peer can be polled: its interval is positive.
    pub fn validate(&self) -> (r: Result<(), ConfigError>)
        ensures
            r is Ok <==> self.polling_interval > 0,
            r is Err ==> r->Err_0 == ConfigError::ZeroPollingInterval,
    {
        if self.polling_interval == 0 {
            Err(ConfigError::ZeroPollingInterval)
        } else {
            Ok(())
        }
    }
}

/// Checks the two capacities of the service: the number of samples the
/// bounded store holds and the number of messages its mailbox holds. Both
/// must be positive; the store's is checked first.
pub fn validate_sizes(memory_storage_size: usize, message_channel_size: usize) -> (r: Result<
    (),
    ConfigError,
>)
    ensures
        r is Ok <==> memory_storage_size > 0 && message_channel_size > 0,
        memory_storage_size == 0 ==> r == Err::<(), ConfigError>(ConfigError::ZeroStorageSize),
        memory_storage_size > 0 && message_channel_size == 0 ==> r == Err::<(), ConfigError>(
            ConfigError::ZeroChannelSize,
        ),
{
    if memory_storage_size == 0 {
        Err(ConfigError::ZeroStorageSize)
    } else if message_channel_size == 0 {
        Err(ConfigError::ZeroChannelSize)
    } else {
        Ok(())
    }
}

} // verus!
