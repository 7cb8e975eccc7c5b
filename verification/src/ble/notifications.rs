//! Notifications and indications: the requests a notification task serves
//! and its decisions on them.
use vstd::prelude::*;

use crate::ble::connection::ConnectionManager;
use crate::ble::manager::RequestIdCounter;
use crate::collections::AttrBuf;

verus! {

/// Maximum data length for notifications and indications.
pub const MAX_NOTIFICATION_DATA: usize = 64;

/// Notification request.
#[derive(Debug)]
pub struct NotificationRequest {
    pub conn_handle: u16,
    pub char_handle: u16,
    pub data: AttrBuf,
    pub is_indication: bool,
    pub response_id: u32,
}

/// Notification response.
#[derive(Debug, Clone, Copy)]
pub struct NotificationResponse {
    pub response_id: u32,
    pub result: Result<(), NotificationError>,
}

/// Notification errors.
#[derive(Debug, Clone, Copy, PartialEq, Eq, Structural)]
pub enum NotificationError {
    ConnectionNotFound,
    CharacteristicNotFound,
    NotificationNotEnabled,
    DataTooLarge,
    SendFailed,
}

/// A request to notify (`is_indication` false) or indicate with the next
/// id; the id is taken even when the data is longer than
/// [`MAX_NOTIFICATION_DATA`], which gives `DataTooLarge`.
pub fn prepare_request(
    ids: &mut RequestIdCounter,
    conn_handle: u16,
    char_handle: u16,
    data: &[u8],
    is_indication: bool,
) -> (r: Result<NotificationRequest, NotificationError>)
    ensures
        final(ids).spec_next() == old(ids).spec_next().wrapping_add(1),
        r is Ok <==> data@.len() <= MAX_NOTIFICATION_DATA,
        r matches Err(e) ==> e == NotificationError::DataTooLarge,
        r matches Ok(q) ==> q.conn_handle == conn_handle && q.char_handle == char_handle
            && q.data@ == data@ && q.is_indication == is_indication && q.response_id == old(
            ids,
        ).spec_next(),
{
    let request_id = ids.take();
    if data.len() > MAX_NOTIFICATION_DATA {
        return Err(NotificationError::DataTooLarge);
    }
    let mut data_vec = AttrBuf::new();
    if !data_vec.extend_from_slice(data) {
        return Err(NotificationError::DataTooLarge);
    }
    Ok(NotificationRequest { conn_handle, char_handle, data: data_vec, is_indication, response_id: request_id })
}

/// A notification request with the next id.
pub fn send_notification(ids: &mut RequestIdCounter, conn_handle: u16, char_handle: u16, data: &[u8]) -> (r:
    Result<NotificationRequest, NotificationError>)
    ensures
        final(ids).spec_next() == old(ids).spec_next().wrapping_add(1),
        r is Ok <==> data@.len() <= MAX_NOTIFICATION_DATA,
        r matches Err(e) ==> e == NotificationError::DataTooLarge,
        r matches Ok(q) ==> q.conn_handle == conn_handle && q.char_handle == char_handle
            && q.data@ == data@ && !q.is_indication && q.response_id == old(ids).spec_next(),
{
    prepare_request(ids, conn_handle, char_handle, data, false)
}

/// An indication request with the next id.
pub fn send_indication(ids: &mut RequestIdCounter, conn_handle: u16, char_handle: u16, data: &[u8]) -> (r:
    Result<NotificationRequest, NotificationError>)
    ensures
        final(ids).spec_next() == old(ids).spec_next().wrapping_add(1),
        r is Ok <==> data@.len() <= MAX_NOTIFICATION_DATA,
        r matches Err(e) ==> e == NotificationError::DataTooLarge,
        r matches Ok(q) ==> q.conn_handle == conn_handle && q.char_handle == char_handle
            && q.data@ == data@ && q.is_indication && q.response_id == old(ids).spec_next(),
{
    prepare_request(ids, conn_handle, char_handle, data, true)
}

/// The outcome of a request: `ConnectionNotFound` unless its connection is
/// active.  Sending on the link is not done here; an accepted request is
/// reported as sent.
pub fn process_notification_request(request: &NotificationRequest, connections: &ConnectionManager) -> (r:
    Result<(), NotificationError>)
    ensures
        r is Ok <==> connections.spec_connections().dom().contains(request.conn_handle),
        r matches Err(e) ==> e == NotificationError::ConnectionNotFound,
{
    if connections.get_connection(request.conn_handle).is_none() {
        return Err(NotificationError::ConnectionNotFound);
    }
    Ok(())
}

/// The response the notification task sends for a request.
pub fn notification_response(request: &NotificationRequest, connections: &ConnectionManager) -> (r:
    NotificationResponse)
    ensures
        r.response_id == request.response_id,
        r.result is Ok <==> connections.spec_connections().dom().contains(request.conn_handle),
        r.result matches Err(e) ==> e == NotificationError::ConnectionNotFound,
{
    let result = process_notification_request(request, connections);
    NotificationResponse { response_id: request.response_id, result }
}

/// The result a requester takes from a response: the response's result
/// when it answers the request's id, else `None` (it is for another
/// request).
pub fn response_for(response: &NotificationResponse, request_id: u32) -> (r: Option<
    Result<(), NotificationError>,
>)
    ensures
        r == (if response.response_id == request_id {
            Some(response.result)
        } else {
            None
        }),
{
    if response.response_id == request_id {
        Some(response.result)
    } else {
        None
    }
}

} // verus!
