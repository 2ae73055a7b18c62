#![allow(unused_imports, dead_code)]
// Sample settings: every field set to a neutral value.

use temp_rs_ddd::config::config::{SystemConfig};
use temp_rs_ddd::config::setting::{SystemSetting, TLSSetting};
use temp_rs_ddd::config::setting_client::{ClientSystemSetting, GrpcClientAuthSetting, GrpcClientCircuitBreakerSetting, GrpcClientCompressionSetting, GrpcClientConnectionSetting, GrpcClientEndpointSetting, GrpcClientKeepaliveSetting, GrpcClientLimitSetting, GrpcClientLoadBalancingSetting, GrpcClientPoolSetting, GrpcClientRetrySetting, GrpcClientSetting, GrpcClientTimeoutSetting, GrpcClientsSetting, KafkaPublisherSetting};
use temp_rs_ddd::config::setting_interface::{CorsHeaderSetting, CorsMethodSetting, CorsOriginSetting, CorsSetting, GrpcHttp2Setting, GrpcKeepaliveSetting, GrpcLimitSetting, GrpcNetworkSetting, GrpcProtocolSetting, GrpcSecuritySetting, GrpcServerSetting, GrpcTcpSetting, GrpcTimeoutSetting, GrpcWorkerSetting, HttpLimitSetting, HttpNetworkSetting, HttpSecuritySetting, HttpServerSetting, HttpTcpSetting, HttpTimeoutSetting, HttpWorkerSetting, InterfacesSystemSetting, WebsocketHeartbeatSetting, WebsocketLimitSetting, WebsocketNetworkSetting, WebsocketProtocolSetting, WebsocketSecuritySetting, WebsocketServerSetting, WebsocketTcpSetting, WebsocketTimeoutSetting, WebsocketWorkerSetting};
use temp_rs_ddd::config::setting_mq::{KafkaClusterSetting, KafkaConnectionSetting, KafkaConnectionTimeoutSetting, KafkaConsumerConcurrencySetting, KafkaConsumerFetchSetting, KafkaConsumerGroupSetting, KafkaConsumerOffsetSetting, KafkaConsumerSessionSetting, KafkaConsumerSetting, KafkaProducerBatchingSetting, KafkaProducerReliabilitySetting, KafkaProducerSetting, KafkaProducerTransactionSetting, KafkaReconnectSetting, KafkaSetting, KafkaTopicSetting, SaslSetting};
use temp_rs_ddd::config::setting_repository::{LocalCacheSetting, ObjectStorageDownloadSetting, ObjectStorageOptionSetting, ObjectStoragePoolSetting, ObjectStorageRetrySetting, ObjectStorageServerSideSetting, ObjectStorageSetting, ObjectStorageTimeoutSetting, ObjectStorageUploadSetting, PostgresqlConnectionSetting, PostgresqlPoolSetting, PostgresqlSettingRepository, PostgresqlTimeoutSetting, QdrantSettingRepository, RedisClusterSetting, RedisPoolSetting, RedisRetrySetting, RedisSentinelSetting, RedisSettingRepository, RedisStandaloneSetting, RedisTimeoutSetting, RepositorySystemSetting, ScyllaAuthSetting, ScyllaClusterSetting, ScyllaConsistencySetting, ScyllaDbSettingRepository, ScyllaLoadBalancingSetting, ScyllaPoolSetting, ScyllaPreparedSetting, ScyllaQuerySetting, ScyllaReconnectionSetting, ScyllaRetrySetting, ScyllaSpeculativeSetting, ScyllaSslSetting, ScyllaTimeoutSetting};
use temp_rs_ddd::config::setting_telemetry::{LoggerFileSetting, LoggerSetting, MetricsSetting, TelemetrySystemSetting, TracingBatchSetting, TracingSetting};
use temp_rs_ddd::config::setting::IpAddress;
use std::collections::HashMap;

#[allow(dead_code)]
fn sample_system_config() -> SystemConfig {
    SystemConfig {
        system: sample_system_setting(),
        interfaces: sample_interfaces_system_setting(),
        repository: sample_repository_system_setting(),
        clients: sample_client_system_setting(),
        telemetry: sample_telemetry_system_setting(),
    }
}

#[allow(dead_code)]
fn sample_system_setting() -> SystemSetting {
    SystemSetting {
        name: String::from("name"),
        version: String::from("version"),
        region: String::from("region"),
        shard_id: String::from("shard_id"),
        timezone: String::from("timezone"),
        mode: String::from("mode"),
    }
}

#[allow(dead_code)]
fn sample_t_l_s_setting() -> TLSSetting {
    TLSSetting {
        is_enabled: false,
        cert_file: String::from("cert_file"),
        key_file: String::from("key_file"),
        client_ca_file: None,
        require_client_cert: false,
        min_version: String::from("min_version"),
    }
}

#[allow(dead_code)]
fn sample_client_system_setting() -> ClientSystemSetting {
    ClientSystemSetting {
        kafka_publisher: sample_kafka_publisher_setting(),
        grpc_clients: sample_grpc_clients_setting(),
    }
}

#[allow(dead_code)]
fn sample_kafka_publisher_setting() -> KafkaPublisherSetting {
    KafkaPublisherSetting {
        connection: sample_kafka_connection_setting(),
        producer: sample_kafka_producer_setting(),
    }
}

#[allow(dead_code)]
fn sample_grpc_clients_setting() -> GrpcClientsSetting {
    GrpcClientsSetting {
        is_enabled: false,
        defaults: sample_grpc_client_setting(),
        services: HashMap::new(),
    }
}

#[allow(dead_code)]
fn sample_grpc_client_setting() -> GrpcClientSetting {
    GrpcClientSetting {
        health_check_enabled: false,
        endpoint: sample_grpc_client_endpoint_setting(),
        connection: sample_grpc_client_connection_setting(),
        timeouts: sample_grpc_client_timeout_setting(),
        pool: sample_grpc_client_pool_setting(),
        keepalive: sample_grpc_client_keepalive_setting(),
        retry: sample_grpc_client_retry_setting(),
        circuit_breaker: sample_grpc_client_circuit_breaker_setting(),
        load_balancing: sample_grpc_client_load_balancing_setting(),
        limits: sample_grpc_client_limit_setting(),
        compression: sample_grpc_client_compression_setting(),
        tls: sample_t_l_s_setting(),
        auth: None,
    }
}

#[allow(dead_code)]
fn sample_grpc_client_endpoint_setting() -> GrpcClientEndpointSetting {
    GrpcClientEndpointSetting {
        discovery: String::from("discovery"),
        addresses: Vec::new(),
        service_name: None,
        authority: None,
        service: None,
    }
}

#[allow(dead_code)]
fn sample_grpc_client_connection_setting() -> GrpcClientConnectionSetting {
    GrpcClientConnectionSetting {
        connect_timeout_ms: 0,
        initial_backoff_ms: 0,
        max_backoff_ms: 0,
        lazy_connect: false,
        tcp_nodelay: false,
    }
}

#[allow(dead_code)]
fn sample_grpc_client_timeout_setting() -> GrpcClientTimeoutSetting {
    GrpcClientTimeoutSetting {
        request_timeout_ms: 0,
        stream_timeout_ms: 0,
        shutdown_timeout_ms: 0,
    }
}

#[allow(dead_code)]
fn sample_grpc_client_pool_setting() -> GrpcClientPoolSetting {
    GrpcClientPoolSetting {
        connections_per_endpoint: 0,
        max_concurrent_streams_per_connection: 0,
        idle_timeout_ms: 0,
    }
}

#[allow(dead_code)]
fn sample_grpc_client_keepalive_setting() -> GrpcClientKeepaliveSetting {
    GrpcClientKeepaliveSetting {
        http2_keepalive_interval_ms: 0,
        http2_keepalive_timeout_ms: 0,
        keepalive_while_idle: false,
        tcp_keepalive_ms: 0,
    }
}

#[allow(dead_code)]
fn sample_grpc_client_retry_setting() -> GrpcClientRetrySetting {
    GrpcClientRetrySetting {
        enabled: false,
        max_attempts: 0,
        initial_backoff_ms: 0,
        max_backoff_ms: 0,
        backoff_multiplier_bits: 0,
        retryable_status_codes: Vec::new(),
        use_jitter: false,
    }
}

#[allow(dead_code)]
fn sample_grpc_client_circuit_breaker_setting() -> GrpcClientCircuitBreakerSetting {
    GrpcClientCircuitBreakerSetting {
        enabled: false,
        failure_threshold: 0,
        success_threshold: 0,
        open_state_duration_ms: 0,
        rolling_window_ms: 0,
    }
}

#[allow(dead_code)]
fn sample_grpc_client_load_balancing_setting() -> GrpcClientLoadBalancingSetting {
    GrpcClientLoadBalancingSetting {
        policy: String::from("policy"),
        hash_header: None,
        subset_size: None,
    }
}

#[allow(dead_code)]
fn sample_grpc_client_limit_setting() -> GrpcClientLimitSetting {
    GrpcClientLimitSetting {
        max_decoding_message_size: 0,
        max_encoding_message_size: 0,
        max_frame_size: 0,
    }
}

#[allow(dead_code)]
fn sample_grpc_client_compression_setting() -> GrpcClientCompressionSetting {
    GrpcClientCompressionSetting {
        send_codec: String::from("send_codec"),
        accept_codecs: Vec::new(),
    }
}

#[allow(dead_code)]
fn sample_grpc_client_auth_setting() -> GrpcClientAuthSetting {
    GrpcClientAuthSetting {
        scheme: String::from("scheme"),
        header: None,
        token: None,
        api_key: None,
    }
}

#[allow(dead_code)]
fn sample_interfaces_system_setting() -> InterfacesSystemSetting {
    InterfacesSystemSetting {
        http_server: sample_http_server_setting(),
        grpc_server: sample_grpc_server_setting(),
        ws_server: sample_websocket_server_setting(),
        kafka_consumer: sample_kafka_consumer_setting(),
    }
}

#[allow(dead_code)]
fn sample_http_server_setting() -> HttpServerSetting {
    HttpServerSetting {
        network: sample_http_network_setting(),
        worker: sample_http_worker_setting(),
        timeouts: sample_http_timeout_setting(),
        limits: sample_http_limit_setting(),
        tcp: sample_http_tcp_setting(),
        security: sample_http_security_setting(),
    }
}

#[allow(dead_code)]
fn sample_http_network_setting() -> HttpNetworkSetting {
    HttpNetworkSetting {
        host: IpAddress::V4([127, 0, 0, 1]),
        port: 0,
    }
}

#[allow(dead_code)]
fn sample_http_worker_setting() -> HttpWorkerSetting {
    HttpWorkerSetting {
        worker_threads: 0,
        max_connections: 0,
        backlog: 0,
    }
}

#[allow(dead_code)]
fn sample_http_timeout_setting() -> HttpTimeoutSetting {
    HttpTimeoutSetting {
        read_timeout_ms: 0,
        write_timeout_ms: 0,
        idle_timeout_ms: 0,
        shutdown_timeout_ms: 0,
    }
}

#[allow(dead_code)]
fn sample_http_limit_setting() -> HttpLimitSetting {
    HttpLimitSetting {
        max_body_size: 0,
        max_header_size: 0,
    }
}

#[allow(dead_code)]
fn sample_http_tcp_setting() -> HttpTcpSetting {
    HttpTcpSetting {
        http2_enabled: false,
        tcp_nodelay: false,
    }
}

#[allow(dead_code)]
fn sample_http_security_setting() -> HttpSecuritySetting {
    HttpSecuritySetting {
        cors: sample_cors_setting(),
        tls: sample_t_l_s_setting(),
    }
}

#[allow(dead_code)]
fn sample_grpc_server_setting() -> GrpcServerSetting {
    GrpcServerSetting {
        network: sample_grpc_network_setting(),
        worker: sample_grpc_worker_setting(),
        timeouts: sample_grpc_timeout_setting(),
        limits: sample_grpc_limit_setting(),
        http2: sample_grpc_http2_setting(),
        keepalive: sample_grpc_keepalive_setting(),
        tcp: sample_grpc_tcp_setting(),
        protocol: sample_grpc_protocol_setting(),
        security: sample_grpc_security_setting(),
    }
}

#[allow(dead_code)]
fn sample_grpc_network_setting() -> GrpcNetworkSetting {
    GrpcNetworkSetting {
        host: IpAddress::V4([127, 0, 0, 1]),
        port: 0,
    }
}

#[allow(dead_code)]
fn sample_grpc_worker_setting() -> GrpcWorkerSetting {
    GrpcWorkerSetting {
        worker_threads: 0,
        max_connections: 0,
        concurrency_limit_per_connection: 0,
        backlog: 0,
    }
}

#[allow(dead_code)]
fn sample_grpc_timeout_setting() -> GrpcTimeoutSetting {
    GrpcTimeoutSetting {
        request_timeout_ms: 0,
        connect_timeout_ms: 0,
        idle_timeout_ms: 0,
        shutdown_timeout_ms: 0,
    }
}

#[allow(dead_code)]
fn sample_grpc_limit_setting() -> GrpcLimitSetting {
    GrpcLimitSetting {
        max_decoding_message_size: 0,
        max_encoding_message_size: 0,
        max_frame_size: 0,
    }
}

#[allow(dead_code)]
fn sample_grpc_http2_setting() -> GrpcHttp2Setting {
    GrpcHttp2Setting {
        initial_stream_window_size: 0,
        initial_connection_window_size: 0,
        max_concurrent_streams: 0,
    }
}

#[allow(dead_code)]
fn sample_grpc_keepalive_setting() -> GrpcKeepaliveSetting {
    GrpcKeepaliveSetting {
        http2_keepalive_interval_ms: 0,
        http2_keepalive_timeout_ms: 0,
        http2_adaptive_window: false,
        tcp_keepalive_ms: 0,
    }
}

#[allow(dead_code)]
fn sample_grpc_tcp_setting() -> GrpcTcpSetting {
    GrpcTcpSetting {
        tcp_nodelay: false,
    }
}

#[allow(dead_code)]
fn sample_grpc_protocol_setting() -> GrpcProtocolSetting {
    GrpcProtocolSetting {
        accept_http1: false,
        reflection_enabled: false,
        health_check_enabled: false,
    }
}

#[allow(dead_code)]
fn sample_grpc_security_setting() -> GrpcSecuritySetting {
    GrpcSecuritySetting {
        tls: sample_t_l_s_setting(),
    }
}

#[allow(dead_code)]
fn sample_websocket_server_setting() -> WebsocketServerSetting {
    WebsocketServerSetting {
        network: sample_websocket_network_setting(),
        worker: sample_websocket_worker_setting(),
        timeouts: sample_websocket_timeout_setting(),
        heartbeat: sample_websocket_heartbeat_setting(),
        limits: sample_websocket_limit_setting(),
        protocol: sample_websocket_protocol_setting(),
        tcp: sample_websocket_tcp_setting(),
        security: sample_websocket_security_setting(),
    }
}

#[allow(dead_code)]
fn sample_websocket_network_setting() -> WebsocketNetworkSetting {
    WebsocketNetworkSetting {
        host: IpAddress::V4([127, 0, 0, 1]),
        port: 0,
        path: String::from("path"),
    }
}

#[allow(dead_code)]
fn sample_websocket_worker_setting() -> WebsocketWorkerSetting {
    WebsocketWorkerSetting {
        worker_threads: 0,
        max_connections: 0,
        max_connections_per_ip: 0,
        backlog: 0,
    }
}

#[allow(dead_code)]
fn sample_websocket_timeout_setting() -> WebsocketTimeoutSetting {
    WebsocketTimeoutSetting {
        handshake_timeout_ms: 0,
        read_timeout_ms: 0,
        write_timeout_ms: 0,
        idle_timeout_ms: 0,
        shutdown_timeout_ms: 0,
    }
}

#[allow(dead_code)]
fn sample_websocket_heartbeat_setting() -> WebsocketHeartbeatSetting {
    WebsocketHeartbeatSetting {
        ping_interval_ms: 0,
        pong_timeout_ms: 0,
    }
}

#[allow(dead_code)]
fn sample_websocket_limit_setting() -> WebsocketLimitSetting {
    WebsocketLimitSetting {
        max_message_size: 0,
        max_frame_size: 0,
        max_messages_per_second: 0,
    }
}

#[allow(dead_code)]
fn sample_websocket_protocol_setting() -> WebsocketProtocolSetting {
    WebsocketProtocolSetting {
        subprotocols: Vec::new(),
        permessage_deflate: false,
        auto_fragment: false,
        accept_unmasked_frames: false,
    }
}

#[allow(dead_code)]
fn sample_websocket_tcp_setting() -> WebsocketTcpSetting {
    WebsocketTcpSetting {
        tcp_nodelay: false,
        tcp_keepalive: false,
    }
}

#[allow(dead_code)]
fn sample_websocket_security_setting() -> WebsocketSecuritySetting {
    WebsocketSecuritySetting {
        cors: sample_cors_setting(),
        tls: sample_t_l_s_setting(),
        allowed_origins: Vec::new(),
    }
}

#[allow(dead_code)]
fn sample_cors_setting() -> CorsSetting {
    CorsSetting {
        enabled: false,
        origin: sample_cors_origin_setting(),
        methods: sample_cors_method_setting(),
        headers: sample_cors_header_setting(),
        allow_credentials: false,
        max_age_secs: 0,
        allow_private_network: false,
    }
}

#[allow(dead_code)]
fn sample_cors_origin_setting() -> CorsOriginSetting {
    CorsOriginSetting {
        allowed_origins: Vec::new(),
        allow_any_origin: false,
    }
}

#[allow(dead_code)]
fn sample_cors_method_setting() -> CorsMethodSetting {
    CorsMethodSetting {
        allowed_methods: Vec::new(),
        allow_any_method: false,
    }
}

#[allow(dead_code)]
fn sample_cors_header_setting() -> CorsHeaderSetting {
    CorsHeaderSetting {
        allowed_headers: Vec::new(),
        allow_any_header: false,
        exposed_headers: Vec::new(),
    }
}

#[allow(dead_code)]
fn sample_kafka_setting() -> KafkaSetting {
    KafkaSetting {
        connection: sample_kafka_connection_setting(),
        producer: None,
        consumer: None,
    }
}

#[allow(dead_code)]
fn sample_kafka_connection_setting() -> KafkaConnectionSetting {
    KafkaConnectionSetting {
        cluster: sample_kafka_cluster_setting(),
        timeouts: sample_kafka_connection_timeout_setting(),
        retry: sample_kafka_reconnect_setting(),
        sasl: None,
        tls: None,
    }
}

#[allow(dead_code)]
fn sample_kafka_cluster_setting() -> KafkaClusterSetting {
    KafkaClusterSetting {
        brokers: Vec::new(),
        client_id: String::from("client_id"),
    }
}

#[allow(dead_code)]
fn sample_kafka_connection_timeout_setting() -> KafkaConnectionTimeoutSetting {
    KafkaConnectionTimeoutSetting {
        connection_timeout_ms: 0,
        request_timeout_ms: 0,
        socket_timeout_ms: 0,
    }
}

#[allow(dead_code)]
fn sample_kafka_reconnect_setting() -> KafkaReconnectSetting {
    KafkaReconnectSetting {
        retry_backoff_ms: 0,
        reconnect_backoff_ms: 0,
        reconnect_backoff_max_ms: 0,
    }
}

#[allow(dead_code)]
fn sample_kafka_producer_setting() -> KafkaProducerSetting {
    KafkaProducerSetting {
        reliability: sample_kafka_producer_reliability_setting(),
        batching: sample_kafka_producer_batching_setting(),
        compression_type: String::from("compression_type"),
        partitioner: String::from("partitioner"),
        transaction: None,
    }
}

#[allow(dead_code)]
fn sample_kafka_producer_reliability_setting() -> KafkaProducerReliabilitySetting {
    KafkaProducerReliabilitySetting {
        acks: String::from("acks"),
        enable_idempotence: false,
        max_in_flight_requests_per_connection: 0,
        retries: 0,
        delivery_timeout_ms: 0,
    }
}

#[allow(dead_code)]
fn sample_kafka_producer_batching_setting() -> KafkaProducerBatchingSetting {
    KafkaProducerBatchingSetting {
        batch_size: 0,
        linger_ms: 0,
        buffer_memory: 0,
        max_request_size: 0,
    }
}

#[allow(dead_code)]
fn sample_kafka_producer_transaction_setting() -> KafkaProducerTransactionSetting {
    KafkaProducerTransactionSetting {
        transactional_id: String::from("transactional_id"),
        transaction_timeout_ms: 0,
    }
}

#[allow(dead_code)]
fn sample_kafka_consumer_setting() -> KafkaConsumerSetting {
    KafkaConsumerSetting {
        group: sample_kafka_consumer_group_setting(),
        offset: sample_kafka_consumer_offset_setting(),
        fetch: sample_kafka_consumer_fetch_setting(),
        session: sample_kafka_consumer_session_setting(),
        concurrency: sample_kafka_consumer_concurrency_setting(),
        topics: None,
    }
}

#[allow(dead_code)]
fn sample_kafka_consumer_group_setting() -> KafkaConsumerGroupSetting {
    KafkaConsumerGroupSetting {
        group_id: String::from("group_id"),
        group_instance_id: None,
    }
}

#[allow(dead_code)]
fn sample_kafka_consumer_offset_setting() -> KafkaConsumerOffsetSetting {
    KafkaConsumerOffsetSetting {
        auto_offset_reset: String::from("auto_offset_reset"),
        enable_auto_commit: false,
        auto_commit_interval_ms: 0,
        isolation_level: String::from("isolation_level"),
    }
}

#[allow(dead_code)]
fn sample_kafka_consumer_fetch_setting() -> KafkaConsumerFetchSetting {
    KafkaConsumerFetchSetting {
        fetch_min_bytes: 0,
        fetch_max_bytes: 0,
        fetch_max_wait_ms: 0,
        max_partition_fetch_bytes: 0,
        max_poll_records: 0,
        max_poll_interval_ms: 0,
    }
}

#[allow(dead_code)]
fn sample_kafka_consumer_session_setting() -> KafkaConsumerSessionSetting {
    KafkaConsumerSessionSetting {
        session_timeout_ms: 0,
        heartbeat_interval_ms: 0,
    }
}

#[allow(dead_code)]
fn sample_kafka_consumer_concurrency_setting() -> KafkaConsumerConcurrencySetting {
    KafkaConsumerConcurrencySetting {
        worker_threads: 0,
        channel_buffer_size: 0,
    }
}

#[allow(dead_code)]
fn sample_kafka_topic_setting() -> KafkaTopicSetting {
    KafkaTopicSetting {
        name: String::from("name"),
        workers: 0,
        buffer_size: 0,
        handler: String::from("handler"),
        enable_auto_commit: false,
    }
}

#[allow(dead_code)]
fn sample_sasl_setting() -> SaslSetting {
    SaslSetting {
        mechanism: String::from("mechanism"),
        username: String::from("username"),
        password: String::from("password"),
    }
}

#[allow(dead_code)]
fn sample_repository_system_setting() -> RepositorySystemSetting {
    RepositorySystemSetting {
        postgresql: sample_postgresql_setting_repository(),
        redis: sample_redis_setting_repository(),
        object_storage: sample_object_storage_setting(),
        scylladb: sample_scylla_db_setting_repository(),
        local_cache: sample_local_cache_setting(),
    }
}

#[allow(dead_code)]
fn sample_scylla_db_setting_repository() -> ScyllaDbSettingRepository {
    ScyllaDbSettingRepository {
        cluster: sample_scylla_cluster_setting(),
        authentication: sample_scylla_auth_setting(),
        ssl: sample_scylla_ssl_setting(),
        consistency: sample_scylla_consistency_setting(),
        timeouts: sample_scylla_timeout_setting(),
        pool: sample_scylla_pool_setting(),
        retry: sample_scylla_retry_setting(),
        speculative: sample_scylla_speculative_setting(),
        load_balancing: sample_scylla_load_balancing_setting(),
        reconnection: sample_scylla_reconnection_setting(),
        prepared: sample_scylla_prepared_setting(),
        query: sample_scylla_query_setting(),
    }
}

#[allow(dead_code)]
fn sample_scylla_cluster_setting() -> ScyllaClusterSetting {
    ScyllaClusterSetting {
        contact_points: Vec::new(),
        keyspace: String::from("keyspace"),
        local_dc: String::from("local_dc"),
        protocol_version: 0,
        compression: String::from("compression"),
    }
}

#[allow(dead_code)]
fn sample_scylla_auth_setting() -> ScyllaAuthSetting {
    ScyllaAuthSetting {
        username: String::from("username"),
        password: String::from("password"),
    }
}

#[allow(dead_code)]
fn sample_scylla_ssl_setting() -> ScyllaSslSetting {
    ScyllaSslSetting {
        enabled: false,
        ca_cert_path: String::from("ca_cert_path"),
        user_cert_path: String::from("user_cert_path"),
        user_key_path: String::from("user_key_path"),
        validate_hostname: false,
        cipher_suites: Vec::new(),
    }
}

#[allow(dead_code)]
fn sample_scylla_consistency_setting() -> ScyllaConsistencySetting {
    ScyllaConsistencySetting {
        default: String::from("default"),
        serial: String::from("serial"),
    }
}

#[allow(dead_code)]
fn sample_scylla_timeout_setting() -> ScyllaTimeoutSetting {
    ScyllaTimeoutSetting {
        connect_timeout_ms: 0,
        request_timeout_ms: 0,
        schema_agreement_timeout_ms: 0,
    }
}

#[allow(dead_code)]
fn sample_scylla_pool_setting() -> ScyllaPoolSetting {
    ScyllaPoolSetting {
        connections_per_host_local: 0,
        connections_per_host_remote: 0,
        max_requests_per_connection: 0,
        keepalive_interval_ms: 0,
    }
}

#[allow(dead_code)]
fn sample_scylla_retry_setting() -> ScyllaRetrySetting {
    ScyllaRetrySetting {
        policy: String::from("policy"),
        max_retries: 0,
    }
}

#[allow(dead_code)]
fn sample_scylla_speculative_setting() -> ScyllaSpeculativeSetting {
    ScyllaSpeculativeSetting {
        enabled: false,
        max_speculative_executions: 0,
        delay_ms: 0,
    }
}

#[allow(dead_code)]
fn sample_scylla_load_balancing_setting() -> ScyllaLoadBalancingSetting {
    ScyllaLoadBalancingSetting {
        policy: String::from("policy"),
        shuffle_replicas: false,
        allow_remote_dcs_for_local_cl: false,
    }
}

#[allow(dead_code)]
fn sample_scylla_reconnection_setting() -> ScyllaReconnectionSetting {
    ScyllaReconnectionSetting {
        policy: String::from("policy"),
        base_delay_ms: 0,
        max_delay_ms: 0,
    }
}

#[allow(dead_code)]
fn sample_scylla_prepared_setting() -> ScyllaPreparedSetting {
    ScyllaPreparedSetting {
        cache_size: 0,
        prepare_on_all_hosts: false,
    }
}

#[allow(dead_code)]
fn sample_scylla_query_setting() -> ScyllaQuerySetting {
    ScyllaQuerySetting {
        page_size: 0,
        fetch_size: 0,
        tracing_enabled: false,
    }
}

#[allow(dead_code)]
fn sample_object_storage_setting() -> ObjectStorageSetting {
    ObjectStorageSetting {
        kind: String::from("kind"),
        bucket_name: String::from("bucket_name"),
        region: String::from("region"),
        endpoint: String::from("endpoint"),
        force_path_style: false,
        access_key_id: String::from("access_key_id"),
        secret_access_key: String::from("secret_access_key"),
        session_token: String::from("session_token"),
        tls: sample_t_l_s_setting(),
        timeouts: sample_object_storage_timeout_setting(),
        pool: sample_object_storage_pool_setting(),
        retry: sample_object_storage_retry_setting(),
        upload: sample_object_storage_upload_setting(),
        download: sample_object_storage_download_setting(),
        server_side: sample_object_storage_server_side_setting(),
        options: sample_object_storage_option_setting(),
    }
}

#[allow(dead_code)]
fn sample_object_storage_timeout_setting() -> ObjectStorageTimeoutSetting {
    ObjectStorageTimeoutSetting {
        connect_timeout_ms: 0,
        request_timeout_ms: 0,
        operation_timeout_ms: 0,
        idle_timeout_ms: 0,
    }
}

#[allow(dead_code)]
fn sample_object_storage_pool_setting() -> ObjectStoragePoolSetting {
    ObjectStoragePoolSetting {
        max_idle_connections: 0,
        max_connections_per_host: 0,
        keep_alive_ms: 0,
    }
}

#[allow(dead_code)]
fn sample_object_storage_retry_setting() -> ObjectStorageRetrySetting {
    ObjectStorageRetrySetting {
        max_retries: 0,
        min_backoff_ms: 0,
        max_backoff_ms: 0,
        use_jitter: false,
    }
}

#[allow(dead_code)]
fn sample_object_storage_upload_setting() -> ObjectStorageUploadSetting {
    ObjectStorageUploadSetting {
        multipart_threshold: 0,
        multipart_chunk_size: 0,
        multipart_concurrency: 0,
        max_object_size: 0,
    }
}

#[allow(dead_code)]
fn sample_object_storage_download_setting() -> ObjectStorageDownloadSetting {
    ObjectStorageDownloadSetting {
        chunk_size: 0,
        concurrency: 0,
    }
}

#[allow(dead_code)]
fn sample_object_storage_server_side_setting() -> ObjectStorageServerSideSetting {
    ObjectStorageServerSideSetting {
        encryption: String::from("encryption"),
        kms_key_id: String::from("kms_key_id"),
        storage_class: String::from("storage_class"),
        checksum_algorithm: String::from("checksum_algorithm"),
    }
}

#[allow(dead_code)]
fn sample_object_storage_option_setting() -> ObjectStorageOptionSetting {
    ObjectStorageOptionSetting {
        enable_compression: false,
        enable_acceleration: false,
        addressing_style: String::from("addressing_style"),
        user_agent: String::from("user_agent"),
    }
}

#[allow(dead_code)]
fn sample_redis_setting_repository() -> RedisSettingRepository {
    RedisSettingRepository {
        kind: String::from("kind"),
        tls: sample_t_l_s_setting(),
        username: String::from("username"),
        password: String::from("password"),
        db: 0,
        client_name: String::from("client_name"),
        standalone: None,
        sentinel: None,
        cluster: None,
        timeouts: sample_redis_timeout_setting(),
        pool: sample_redis_pool_setting(),
        retry: sample_redis_retry_setting(),
    }
}

#[allow(dead_code)]
fn sample_redis_standalone_setting() -> RedisStandaloneSetting {
    RedisStandaloneSetting {
        host: String::from("host"),
        port: 0,
    }
}

#[allow(dead_code)]
fn sample_redis_sentinel_setting() -> RedisSentinelSetting {
    RedisSentinelSetting {
        master_name: String::from("master_name"),
        sentinel_addrs: Vec::new(),
        sentinel_username: String::from("sentinel_username"),
        sentinel_password: String::from("sentinel_password"),
    }
}

#[allow(dead_code)]
fn sample_redis_cluster_setting() -> RedisClusterSetting {
    RedisClusterSetting {
        cluster_addrs: Vec::new(),
        route_by_latency: false,
        route_randomly: false,
        read_only: false,
        max_redirects: 0,
    }
}

#[allow(dead_code)]
fn sample_redis_timeout_setting() -> RedisTimeoutSetting {
    RedisTimeoutSetting {
        dial_timeout: 0,
        read_timeout: 0,
        write_timeout: 0,
        pool_timeout: 0,
    }
}

#[allow(dead_code)]
fn sample_redis_pool_setting() -> RedisPoolSetting {
    RedisPoolSetting {
        pool_size: 0,
        min_idle_conns: 0,
        max_idle_conns: 0,
        pool_fifo: false,
        conn_max_idle_time: 0,
        conn_max_lifetime: 0,
    }
}

#[allow(dead_code)]
fn sample_redis_retry_setting() -> RedisRetrySetting {
    RedisRetrySetting {
        max_retries: 0,
        min_retry_backoff: 0,
        max_retry_backoff: 0,
    }
}

#[allow(dead_code)]
fn sample_postgresql_setting_repository() -> PostgresqlSettingRepository {
    PostgresqlSettingRepository {
        connection: sample_postgresql_connection_setting(),
        tls: sample_t_l_s_setting(),
        appname: String::from("appname"),
        tz: String::from("tz"),
        timeouts: sample_postgresql_timeout_setting(),
        pool: sample_postgresql_pool_setting(),
    }
}

#[allow(dead_code)]
fn sample_postgresql_connection_setting() -> PostgresqlConnectionSetting {
    PostgresqlConnectionSetting {
        address: Vec::new(),
        database: String::from("database"),
        username: String::from("username"),
        password: String::from("password"),
    }
}

#[allow(dead_code)]
fn sample_postgresql_timeout_setting() -> PostgresqlTimeoutSetting {
    PostgresqlTimeoutSetting {
        connection_timeout: 0,
        statement_timeout: 0,
        idle_in_transaction_timeout: 0,
    }
}

#[allow(dead_code)]
fn sample_postgresql_pool_setting() -> PostgresqlPoolSetting {
    PostgresqlPoolSetting {
        max_conns: 0,
        min_conns: 0,
        min_idle_conns: 0,
        max_conn_idle_time: 0,
        max_conn_lifetime: 0,
        max_conn_lifetime_jitter: 0,
        health_check_period: 0,
    }
}

#[allow(dead_code)]
fn sample_local_cache_setting() -> LocalCacheSetting {
    LocalCacheSetting {
        max_capacity: 0,
        initial_capacity: 0,
        time_to_live_secs: 0,
        time_to_idle_secs: 0,
    }
}

#[allow(dead_code)]
fn sample_qdrant_setting_repository() -> QdrantSettingRepository {
    QdrantSettingRepository {
        host: String::from("host"),
        port: 0,
        tls: sample_t_l_s_setting(),
        api_key: String::from("api_key"),
        compression: None,
        timeout_ms: 0,
        connect_timeout_ms: 0,
        keep_alive_interval: false,
        custom_headers: Vec::new(),
        pool_size: 0,
        check_compatibility: false,
        collection: String::from("collection"),
        dimension: 0,
    }
}

#[allow(dead_code)]
fn sample_telemetry_system_setting() -> TelemetrySystemSetting {
    TelemetrySystemSetting {
        logger: sample_logger_setting(),
        metrics: sample_metrics_setting(),
        tracing: sample_tracing_setting(),
    }
}

#[allow(dead_code)]
fn sample_logger_setting() -> LoggerSetting {
    LoggerSetting {
        level: String::from("level"),
        output: Vec::new(),
        caller: false,
        stacktrace_level: String::from("stacktrace_level"),
        file: sample_logger_file_setting(),
    }
}

#[allow(dead_code)]
fn sample_logger_file_setting() -> LoggerFileSetting {
    LoggerFileSetting {
        enabled: false,
        folder: String::from("folder"),
        filename: String::from("filename"),
        max_size_mb: 0,
        max_backups: 0,
        max_age_days: 0,
        compress: false,
    }
}

#[allow(dead_code)]
fn sample_metrics_setting() -> MetricsSetting {
    MetricsSetting {
        enabled: false,
        path: String::from("path"),
        port: 0,
        host: IpAddress::V4([127, 0, 0, 1]),
        namespace: String::from("namespace"),
        collect_interval_secs: 0,
    }
}

#[allow(dead_code)]
fn sample_tracing_setting() -> TracingSetting {
    TracingSetting {
        enabled: false,
        service_name: String::from("service_name"),
        service_version: String::from("service_version"),
        otlp_endpoint: String::from("otlp_endpoint"),
        protocol: String::from("protocol"),
        sampling_ratio_bits: 0,
        propagation: Vec::new(),
        batch: sample_tracing_batch_setting(),
        headers: HashMap::new(),
    }
}

#[allow(dead_code)]
fn sample_tracing_batch_setting() -> TracingBatchSetting {
    TracingBatchSetting {
        max_queue_size: 0,
        max_export_batch_size: 0,
        schedule_delay_ms: 0,
        export_timeout_ms: 0,
    }
}

use temp_rs_ddd::connection::grpc_conn::{
    build_channel, build_tls, check_endpoint_uris, health_passes, health_verdict, plan_channel,
    service_startup, ChannelMode, GrpcConnError, HealthOutcome, HealthVerdict,
};
use temp_rs_ddd::connection::kafka_conn::{
    apply_security, build_base_config, build_consumer_config, build_producer_config,
    map_partitioner,
};
use temp_rs_ddd::connection::postgres_conn::{build_pg_config, PgConfigError};
use temp_rs_ddd::connection::qdrant_conn::{plan_qdrant_client, QdrantCompression, QdrantConfigError};
use temp_rs_ddd::connection::redis_conn::{
    build_cluster_nodes, build_sentinel_url, build_standalone_url, pool_kind, single_pool_url,
    RedisConnError, RedisPoolKind,
};
use temp_rs_ddd::connection::s3_conn::{plan_client, S3ConfigError};
use temp_rs_ddd::connection::scylla_conn::{
    build_execution_profile, build_session, parse_compression, parse_consistency,
    parse_retry_policy, parse_serial_consistency, Compression, Consistency, RetryPolicyKind,
    ScyllaConfigError, SerialConsistency,
};
use temp_rs_ddd::config::setting_client::default_true;

fn tls_on() -> TLSSetting {
    let mut t = sample_t_l_s_setting();
    t.is_enabled = true;
    t
}

// --- configuration ---

#[test]
fn telemetry_section_is_returned() {
    let mut cfg = sample_system_config();
    cfg.telemetry.logger.level = String::from("debug");
    assert_eq!(cfg.telemetry().logger.level, "debug");
}

#[test]
fn health_check_defaults_to_on() {
    assert!(default_true());
}

// --- Kafka client configuration ---

fn kafka_conn() -> KafkaConnectionSetting {
    let mut c = sample_kafka_connection_setting();
    c.cluster.brokers = vec![String::from("k1:9092"), String::from("k2:9092")];
    c.cluster.client_id = String::from("svc");
    c.timeouts.socket_timeout_ms = 60000;
    c.timeouts.connection_timeout_ms = 10000;
    c.retry.retry_backoff_ms = 100;
    c.retry.reconnect_backoff_ms = 50;
    c.retry.reconnect_backoff_max_ms = 1000;
    c
}

#[test]
fn base_config_sets_cluster_and_timeouts() {
    let cfg = build_base_config(&kafka_conn()).unwrap();
    assert_eq!(cfg.get("bootstrap.servers"), Some("k1:9092,k2:9092"));
    assert_eq!(cfg.get("client.id"), Some("svc"));
    assert_eq!(cfg.get("socket.timeout.ms"), Some("60000"));
    assert_eq!(cfg.get("socket.connection.setup.timeout.ms"), Some("10000"));
    assert_eq!(cfg.get("retry.backoff.ms"), Some("100"));
    assert_eq!(cfg.get("reconnect.backoff.ms"), Some("50"));
    assert_eq!(cfg.get("reconnect.backoff.max.ms"), Some("1000"));
    assert_eq!(cfg.get("security.protocol"), Some("PLAINTEXT"));
    assert_eq!(cfg.get("sasl.mechanism"), None);
}

#[test]
fn security_protocol_follows_sasl_and_tls() {
    let sasl = SaslSetting {
        mechanism: String::from("SCRAM-SHA-512"),
        username: String::from("u"),
        password: String::from("p"),
    };
    let mut c = kafka_conn();
    c.sasl = Some(sasl);
    let cfg = build_base_config(&c).unwrap();
    assert_eq!(cfg.get("security.protocol"), Some("SASL_PLAINTEXT"));
    assert_eq!(cfg.get("sasl.mechanism"), Some("SCRAM-SHA-512"));
    assert_eq!(cfg.get("sasl.username"), Some("u"));
    assert_eq!(cfg.get("sasl.password"), Some("p"));

    let mut tls = tls_on();
    tls.client_ca_file = Some(String::from("/ca.pem"));
    tls.cert_file = String::from("/cert.pem");
    tls.key_file = String::new();
    c.tls = Some(tls);
    let cfg = build_base_config(&c).unwrap();
    assert_eq!(cfg.get("security.protocol"), Some("SASL_SSL"));
    assert_eq!(cfg.get("ssl.ca.location"), Some("/ca.pem"));
    assert_eq!(cfg.get("ssl.certificate.location"), Some("/cert.pem"));
    assert_eq!(cfg.get("ssl.key.location"), None);

    c.sasl = None;
    let cfg = build_base_config(&c).unwrap();
    assert_eq!(cfg.get("security.protocol"), Some("SSL"));

    // TLS configured but disabled counts as no TLS.
    let mut off = sample_t_l_s_setting();
    off.client_ca_file = Some(String::from("/ca.pem"));
    c.tls = Some(off);
    let mut cfg = rdkafka::ClientConfig::new();
    apply_security(&mut cfg, &c).unwrap();
    assert_eq!(cfg.get("security.protocol"), Some("PLAINTEXT"));
    assert_eq!(cfg.get("ssl.ca.location"), None);
}

#[test]
fn partitioner_names_are_mapped() {
    assert_eq!(map_partitioner("round_robin"), "random");
    assert_eq!(map_partitioner("uniform_sticky"), "murmur2_random");
    assert_eq!(map_partitioner("default"), "consistent_random");
    assert_eq!(map_partitioner(""), "consistent_random");
}

#[test]
fn producer_config_adds_producer_parameters() {
    let conn = kafka_conn();
    let base = build_base_config(&conn).unwrap();
    let mut prod = sample_kafka_producer_setting();
    prod.reliability.acks = String::from("all");
    prod.reliability.enable_idempotence = true;
    prod.reliability.max_in_flight_requests_per_connection = 5;
    prod.reliability.retries = 3;
    prod.reliability.delivery_timeout_ms = 120000;
    prod.batching.batch_size = 16384;
    prod.batching.linger_ms = 5;
    prod.batching.buffer_memory = 33554432;
    prod.batching.max_request_size = 1048576;
    prod.compression_type = String::from("lz4");
    prod.partitioner = String::from("round_robin");
    let cfg = build_producer_config(&base, &conn, &prod).unwrap();
    assert_eq!(cfg.get("bootstrap.servers"), Some("k1:9092,k2:9092"));
    assert_eq!(cfg.get("request.timeout.ms"), Some("0"));
    assert_eq!(cfg.get("acks"), Some("all"));
    assert_eq!(cfg.get("enable.idempotence"), Some("true"));
    assert_eq!(cfg.get("max.in.flight.requests.per.connection"), Some("5"));
    assert_eq!(cfg.get("retries"), Some("3"));
    assert_eq!(cfg.get("delivery.timeout.ms"), Some("120000"));
    assert_eq!(cfg.get("batch.size"), Some("16384"));
    assert_eq!(cfg.get("linger.ms"), Some("5"));
    assert_eq!(cfg.get("queue.buffering.max.kbytes"), Some("32768"));
    assert_eq!(cfg.get("message.max.bytes"), Some("1048576"));
    assert_eq!(cfg.get("compression.type"), Some("lz4"));
    assert_eq!(cfg.get("partitioner"), Some("random"));
    assert_eq!(cfg.get("transactional.id"), None);
    // the base is left untouched
    assert_eq!(base.get("acks"), None);

    prod.batching.buffer_memory = 100;
    prod.transaction = Some(KafkaProducerTransactionSetting {
        transactional_id: String::from("tx-1"),
        transaction_timeout_ms: 60000,
    });
    let cfg = build_producer_config(&base, &conn, &prod).unwrap();
    assert_eq!(cfg.get("queue.buffering.max.kbytes"), Some("1"));
    assert_eq!(cfg.get("transactional.id"), Some("tx-1"));
    assert_eq!(cfg.get("transaction.timeout.ms"), Some("60000"));
}

#[test]
fn consumer_config_adds_consumer_parameters() {
    let base = build_base_config(&kafka_conn()).unwrap();
    let mut cons = sample_kafka_consumer_setting();
    cons.group.group_id = String::from("grp");
    cons.offset.auto_offset_reset = String::from("earliest");
    cons.offset.enable_auto_commit = false;
    cons.offset.auto_commit_interval_ms = 5000;
    cons.offset.isolation_level = String::from("read_committed");
    cons.fetch.fetch_min_bytes = 1;
    cons.fetch.max_partition_fetch_bytes = 1048576;
    cons.fetch.fetch_max_wait_ms = 500;
    cons.fetch.max_poll_interval_ms = 300000;
    cons.session.session_timeout_ms = 45000;
    cons.session.heartbeat_interval_ms = 3000;
    let cfg = build_consumer_config(&base, &cons).unwrap();
    assert_eq!(cfg.get("client.id"), Some("svc"));
    assert_eq!(cfg.get("allow.auto.create.topics"), Some("true"));
    assert_eq!(cfg.get("group.id"), Some("grp"));
    assert_eq!(cfg.get("auto.offset.reset"), Some("earliest"));
    assert_eq!(cfg.get("enable.auto.commit"), Some("false"));
    assert_eq!(cfg.get("auto.commit.interval.ms"), Some("5000"));
    assert_eq!(cfg.get("isolation.level"), Some("read_committed"));
    assert_eq!(cfg.get("fetch.min.bytes"), Some("1"));
    assert_eq!(cfg.get("max.partition.fetch.bytes"), Some("1048576"));
    assert_eq!(cfg.get("fetch.wait.max.ms"), Some("500"));
    assert_eq!(cfg.get("max.poll.interval.ms"), Some("300000"));
    assert_eq!(cfg.get("session.timeout.ms"), Some("45000"));
    assert_eq!(cfg.get("heartbeat.interval.ms"), Some("3000"));
    assert_eq!(cfg.get("group.instance.id"), None);
    cons.group.group_instance_id = Some(String::from("pod-0"));
    let cfg = build_consumer_config(&base, &cons).unwrap();
    assert_eq!(cfg.get("group.instance.id"), Some("pod-0"));
}

// --- Redis ---

fn redis_setting(kind: &str) -> RedisSettingRepository {
    let mut r = sample_redis_setting_repository();
    r.kind = String::from(kind);
    r.username = String::from("user");
    r.password = String::new();
    r.db = 2;
    r.standalone = Some(RedisStandaloneSetting { host: String::from("cache"), port: 6379 });
    r
}

#[test]
fn pool_kind_follows_type() {
    assert_eq!(pool_kind(&redis_setting("standalone")).unwrap(), RedisPoolKind::Single);
    assert_eq!(pool_kind(&redis_setting("sentinel")).unwrap(), RedisPoolKind::Single);
    assert_eq!(pool_kind(&redis_setting("cluster")).unwrap(), RedisPoolKind::Cluster);
    match pool_kind(&redis_setting("memcached")) {
        Err(RedisConnError::UnknownType(t)) => assert_eq!(t, "memcached"),
        other => panic!("unexpected {:?}", other),
    }
}

#[test]
fn standalone_url_with_and_without_password() {
    let mut r = redis_setting("standalone");
    assert_eq!(build_standalone_url(&r).unwrap(), "redis://cache:6379/2");
    r.password = String::from("pw");
    r.tls = tls_on();
    assert_eq!(build_standalone_url(&r).unwrap(), "rediss://user:pw@cache:6379/2");
    r.standalone = None;
    assert!(matches!(build_standalone_url(&r), Err(RedisConnError::MissingStandalone)));
}

#[test]
fn sentinel_url_lists_all_sentinels() {
    let mut r = redis_setting("sentinel");
    r.sentinel = Some(RedisSentinelSetting {
        master_name: String::from("mymaster"),
        sentinel_addrs: vec![String::from("s1:26379"), String::from("s2:26379")],
        sentinel_username: String::from("su"),
        sentinel_password: String::new(),
    });
    assert_eq!(build_sentinel_url(&r).unwrap(), "redis+sentinel://s1:26379,s2:26379/mymaster/2");
    assert_eq!(single_pool_url(&r).unwrap(), "redis+sentinel://s1:26379,s2:26379/mymaster/2");
    r.tls = tls_on();
    if let Some(s) = r.sentinel.as_mut() {
        s.sentinel_password = String::from("sp");
    }
    assert_eq!(
        build_sentinel_url(&r).unwrap(),
        "redis+sentinels://su:sp@s1:26379,s2:26379/mymaster/2"
    );
    r.sentinel = None;
    assert!(matches!(single_pool_url(&r), Err(RedisConnError::MissingSentinel)));
    let s = redis_setting("standalone");
    assert_eq!(single_pool_url(&s).unwrap(), "redis://cache:6379/2");
}

#[test]
fn cluster_nodes_carry_credentials() {
    let mut r = redis_setting("cluster");
    assert!(matches!(build_cluster_nodes(&r), Err(RedisConnError::MissingCluster)));
    r.cluster = Some(RedisClusterSetting {
        cluster_addrs: vec![String::from("n1:7000"), String::from("n2:7001")],
        route_by_latency: false,
        route_randomly: false,
        read_only: true,
        max_redirects: 3,
    });
    r.password = String::from("pw");
    let plan = build_cluster_nodes(&r).unwrap();
    assert_eq!(plan.nodes, vec!["redis://user:pw@n1:7000", "redis://user:pw@n2:7001"]);
    assert!(plan.read_only);
    r.password = String::new();
    let plan = build_cluster_nodes(&r).unwrap();
    assert_eq!(plan.nodes, vec!["redis://n1:7000", "redis://n2:7001"]);
}

// --- PostgreSQL ---

fn pg_setting(addr: &[&str]) -> PostgresqlSettingRepository {
    let mut p = sample_postgresql_setting_repository();
    p.connection.address = addr.iter().map(|a| a.to_string()).collect();
    p.connection.database = String::from("app");
    p.connection.username = String::from("svc");
    p.connection.password = String::from("secret");
    p.appname = String::from("temp-rs");
    p.tz = String::from("UTC");
    p.timeouts.connection_timeout = 5;
    p.timeouts.statement_timeout = 30;
    p.timeouts.idle_in_transaction_timeout = 60;
    p
}

#[test]
fn pg_config_uses_first_address() {
    let cfg = build_pg_config(&pg_setting(&["db1:5432", "db2:5433"])).unwrap();
    assert_eq!(cfg.host, "db1");
    assert_eq!(cfg.port, 5432);
    assert_eq!(cfg.dbname, "app");
    assert_eq!(cfg.user, "svc");
    assert_eq!(cfg.password, "secret");
    assert_eq!(cfg.application_name, "temp-rs");
    assert_eq!(
        cfg.options,
        "-c statement_timeout=30000 -c idle_in_transaction_session_timeout=60000 -c TimeZone=UTC"
    );
    assert_eq!(cfg.connect_timeout_secs, 5);
    assert!(!cfg.ssl_required);
}

#[test]
fn pg_config_splits_at_last_colon() {
    let cfg = build_pg_config(&pg_setting(&["::1:6543"])).unwrap();
    assert_eq!(cfg.host, "::1");
    assert_eq!(cfg.port, 6543);
    let cfg = build_pg_config(&pg_setting(&["db:+80"])).unwrap();
    assert_eq!(cfg.port, 80);
}

#[test]
fn pg_config_errors() {
    assert!(matches!(build_pg_config(&pg_setting(&[])), Err(PgConfigError::EmptyAddress)));
    match build_pg_config(&pg_setting(&["db"])) {
        Err(PgConfigError::MissingPort(a)) => assert_eq!(a, "db"),
        other => panic!("unexpected {:?}", other),
    }
    match build_pg_config(&pg_setting(&["db:70000"])) {
        Err(PgConfigError::InvalidPort(p)) => assert_eq!(p, "70000"),
        other => panic!("unexpected {:?}", other),
    }
    match build_pg_config(&pg_setting(&["db:"])) {
        Err(PgConfigError::InvalidPort(p)) => assert_eq!(p, ""),
        other => panic!("unexpected {:?}", other),
    }
    let mut s = pg_setting(&["db:5432"]);
    s.tls.is_enabled = true;
    assert!(build_pg_config(&s).unwrap().ssl_required);
}

// --- ScyllaDB ---

fn scylla_setting() -> ScyllaDbSettingRepository {
    let mut s = sample_scylla_db_setting_repository();
    s.cluster.contact_points = vec![String::from("n1:9042"), String::from("n2:9042")];
    s.cluster.keyspace = String::from("ks");
    s.cluster.local_dc = String::from("dc1");
    s.cluster.compression = String::from("lz4");
    s.consistency.default = String::from("local_quorum");
    s.consistency.serial = String::from("Local_Serial");
    s.retry.policy = String::from("default");
    s.timeouts.connect_timeout_ms = 5000;
    s.timeouts.request_timeout_ms = 2000;
    s.pool.connections_per_host_local = 0;
    s.pool.keepalive_interval_ms = 0;
    s.authentication.username = String::new();
    s
}

#[test]
fn scylla_names_are_parsed() {
    assert_eq!(parse_compression("none").unwrap(), None);
    assert_eq!(parse_compression("").unwrap(), None);
    assert_eq!(parse_compression("snappy").unwrap(), Some(Compression::Snappy));
    assert_eq!(parse_compression("lz4").unwrap(), Some(Compression::Lz4));
    assert!(matches!(parse_compression("LZ4"), Err(ScyllaConfigError::UnknownCompression(_))));
    assert_eq!(parse_consistency("quorum").unwrap(), Consistency::Quorum);
    assert_eq!(parse_consistency("Each_Quorum").unwrap(), Consistency::EachQuorum);
    assert_eq!(parse_consistency("LOCAL_ONE").unwrap(), Consistency::LocalOne);
    match parse_consistency("most") {
        Err(ScyllaConfigError::UnknownConsistency(t)) => assert_eq!(t, "MOST"),
        other => panic!("unexpected {:?}", other),
    }
    assert_eq!(parse_serial_consistency("serial").unwrap(), SerialConsistency::Serial);
    assert!(matches!(
        parse_serial_consistency("quorum"),
        Err(ScyllaConfigError::UnknownSerialConsistency(_))
    ));
    assert_eq!(parse_retry_policy("downgrading").unwrap(), RetryPolicyKind::Downgrading);
    assert_eq!(parse_retry_policy("fallthrough").unwrap(), RetryPolicyKind::Fallthrough);
    assert!(matches!(parse_retry_policy("always"), Err(ScyllaConfigError::UnknownRetryPolicy(_))));
}

#[test]
fn scylla_session_plan() {
    let mut s = scylla_setting();
    let plan = build_session(&s).unwrap();
    assert_eq!(plan.known_nodes, vec!["n1:9042", "n2:9042"]);
    assert_eq!(plan.connection_timeout_ms, 5000);
    assert!(plan.credentials.is_none());
    assert_eq!(plan.keyspace.as_deref(), Some("ks"));
    assert_eq!(plan.compression, Some(Compression::Lz4));
    assert_eq!(plan.pool_size_per_host, 1);
    assert_eq!(plan.keepalive_interval_ms, None);
    assert!(!plan.tls_enabled);
    assert_eq!(plan.profile.consistency, Consistency::LocalQuorum);
    assert_eq!(plan.profile.serial_consistency, SerialConsistency::LocalSerial);
    assert_eq!(plan.profile.retry_policy, RetryPolicyKind::Default);
    assert_eq!(plan.profile.request_timeout_ms, 2000);
    assert_eq!(plan.profile.preferred_datacenter, "dc1");
    assert!(plan.profile.speculative.is_none());

    s.authentication.username = String::from("cassandra");
    s.authentication.password = String::from("pw");
    s.cluster.keyspace = String::new();
    s.pool.connections_per_host_local = 4;
    s.pool.keepalive_interval_ms = 30000;
    s.speculative.enabled = true;
    s.speculative.max_speculative_executions = 2;
    s.speculative.delay_ms = 100;
    s.ssl.enabled = true;
    let plan = build_session(&s).unwrap();
    assert_eq!(plan.credentials, Some((String::from("cassandra"), String::from("pw"))));
    assert!(plan.keyspace.is_none());
    assert_eq!(plan.pool_size_per_host, 4);
    assert_eq!(plan.keepalive_interval_ms, Some(30000));
    assert!(plan.tls_enabled);
    let spec = plan.profile.speculative.unwrap();
    assert_eq!(spec.max_retry_count, 2);
    assert_eq!(spec.retry_interval_ms, 100);
}

#[test]
fn scylla_first_unknown_name_is_reported() {
    let mut s = scylla_setting();
    s.consistency.default = String::from("bogus");
    s.retry.policy = String::from("bogus");
    assert!(matches!(build_session(&s), Err(ScyllaConfigError::UnknownConsistency(_))));
    let mut s = scylla_setting();
    s.consistency.serial = String::from("bogus");
    assert!(matches!(build_execution_profile(&s), Err(ScyllaConfigError::UnknownSerialConsistency(_))));
    let mut s = scylla_setting();
    s.retry.policy = String::from("bogus");
    s.cluster.compression = String::from("zstd");
    assert!(matches!(build_session(&s), Err(ScyllaConfigError::UnknownRetryPolicy(_))));
    let mut s = scylla_setting();
    s.cluster.compression = String::from("zstd");
    match build_session(&s) {
        Err(ScyllaConfigError::UnknownCompression(t)) => assert_eq!(t, "zstd"),
        other => panic!("unexpected {:?}", other.is_ok()),
    }
}

// --- S3 ---

#[test]
fn s3_plan() {
    let mut s = sample_object_storage_setting();
    s.kind = String::from("s3");
    s.session_token = String::new();
    s.endpoint = String::from("http://minio:9000");
    s.retry.max_retries = 3;
    s.timeouts.connect_timeout_ms = 1000;
    s.timeouts.request_timeout_ms = 2000;
    s.timeouts.operation_timeout_ms = 3000;
    s.force_path_style = true;
    let p = plan_client(&s).unwrap();
    assert_eq!(p.max_attempts, 4);
    assert!(p.session_token.is_none());
    assert_eq!(p.endpoint_url.as_deref(), Some("http://minio:9000"));
    assert_eq!(p.connect_timeout_ms, 1000);
    assert_eq!(p.read_timeout_ms, 2000);
    assert_eq!(p.operation_attempt_timeout_ms, 3000);
    assert!(p.force_path_style);
    assert_eq!(p.bucket_name, "bucket_name");
    assert_eq!(p.region, "region");
    s.session_token = String::from("tok");
    s.endpoint = String::new();
    let p = plan_client(&s).unwrap();
    assert_eq!(p.session_token.as_deref(), Some("tok"));
    assert!(p.endpoint_url.is_none());
    s.kind = String::from("gcs");
    match plan_client(&s) {
        Err(S3ConfigError::UnsupportedType(t)) => assert_eq!(t, "gcs"),
        Ok(_) => panic!("gcs accepted"),
    }
}

// --- Qdrant ---

#[test]
fn qdrant_plan() {
    let mut q = sample_qdrant_setting_repository();
    q.host = String::from("qdrant");
    q.port = 6334;
    q.custom_headers = vec![(String::from("x-a"), String::from("1"))];
    let p = plan_qdrant_client(&q).unwrap();
    assert_eq!(p.uri, "http://qdrant:6334");
    assert_eq!(p.compression, None);
    assert_eq!(p.custom_headers, vec![(String::from("x-a"), String::from("1"))]);
    q.compression = Some(String::from("gzip"));
    assert_eq!(plan_qdrant_client(&q).unwrap().compression, Some(QdrantCompression::Gzip));
    q.compression = Some(String::from("none"));
    assert_eq!(plan_qdrant_client(&q).unwrap().compression, None);
    q.compression = Some(String::from("br"));
    match plan_qdrant_client(&q) {
        Err(QdrantConfigError::UnknownCompression(t)) => assert_eq!(t, "br"),
        other => panic!("unexpected {:?}", other.is_ok()),
    }
    q.tls = tls_on();
    assert!(matches!(plan_qdrant_client(&q), Err(QdrantConfigError::TlsUnsupported)));
}

// --- gRPC ---

fn grpc_setting(discovery: &str, addrs: &[&str]) -> GrpcClientSetting {
    let mut g = sample_grpc_client_setting();
    g.endpoint.discovery = String::from(discovery);
    g.endpoint.addresses = addrs.iter().map(|a| a.to_string()).collect();
    g.connection.connect_timeout_ms = 1500;
    g.keepalive.tcp_keepalive_ms = 60000;
    g
}

#[test]
fn grpc_static_channels() {
    let mut g = grpc_setting("static", &["a:50051"]);
    let p = build_channel(&g).unwrap();
    assert_eq!(p.uris, vec!["http://a:50051"]);
    assert_eq!(p.mode, ChannelMode::Eager);
    assert!(p.tls.is_none());
    assert_eq!(p.options.connect_timeout_ms, 1500);
    assert_eq!(p.options.tcp_keepalive_ms, 60000);
    assert!(p.options.http2_adaptive_window);
    g.connection.lazy_connect = true;
    assert_eq!(build_channel(&g).unwrap().mode, ChannelMode::Lazy);
    let mut g = grpc_setting("static", &["a:1", "b:2"]);
    g.tls = tls_on();
    let p = build_channel(&g).unwrap();
    assert_eq!(p.uris, vec!["https://a:1", "https://b:2"]);
    assert_eq!(p.mode, ChannelMode::Balanced);
    assert!(p.tls.is_some());
    let g = grpc_setting("static", &[]);
    assert!(matches!(build_channel(&g), Err(GrpcConnError::EmptyStaticAddresses)));
}

#[test]
fn grpc_dns_and_unknown_discovery() {
    let mut g = grpc_setting("dns", &[]);
    assert!(matches!(build_channel(&g), Err(GrpcConnError::MissingServiceName)));
    g.endpoint.service_name = Some(String::from("users.internal:50051"));
    let p = build_channel(&g).unwrap();
    assert_eq!(p.uris, vec!["http://users.internal:50051"]);
    assert_eq!(p.mode, ChannelMode::Eager);
    let g = grpc_setting("consul", &["a:1"]);
    match build_channel(&g) {
        Err(GrpcConnError::UnsupportedDiscovery(d)) => assert_eq!(d, "consul"),
        other => panic!("unexpected {:?}", other.is_ok()),
    }
}

#[test]
fn grpc_tls_material() {
    let mut g = grpc_setting("static", &["a:1"]);
    g.tls = tls_on();
    let t = build_tls(&g);
    assert!(t.domain_name.is_none() && t.identity_files.is_none() && t.ca_file.is_none());
    g.endpoint.authority = Some(String::from("users"));
    g.tls.require_client_cert = true;
    g.tls.client_ca_file = Some(String::from("/ca"));
    let t = build_tls(&g);
    assert_eq!(t.domain_name.as_deref(), Some("users"));
    assert_eq!(t.identity_files, Some((String::from("cert_file"), String::from("key_file"))));
    assert_eq!(t.ca_file.as_deref(), Some("/ca"));
}

#[test]
fn grpc_health_verdicts() {
    assert_eq!(health_verdict(HealthOutcome::Answered(1)), HealthVerdict::Healthy);
    assert_eq!(health_verdict(HealthOutcome::Answered(2)), HealthVerdict::NotServing(2));
    assert_eq!(health_verdict(HealthOutcome::RpcFailed(12)), HealthVerdict::Skipped);
    assert_eq!(health_verdict(HealthOutcome::RpcFailed(1)), HealthVerdict::RpcFailed(1));
    assert_eq!(health_verdict(HealthOutcome::RpcFailed(5)), HealthVerdict::RpcFailed(5));
    assert!(!health_passes(health_verdict(HealthOutcome::RpcFailed(1))));
    assert!(!health_passes(health_verdict(HealthOutcome::RpcFailed(5))));
    assert!(health_passes(health_verdict(HealthOutcome::RpcFailed(12))));
    assert_eq!(health_verdict(HealthOutcome::RpcFailed(14)), HealthVerdict::RpcFailed(14));
    assert_eq!(health_verdict(HealthOutcome::TimedOut), HealthVerdict::TimedOut);
    assert!(health_passes(HealthVerdict::Healthy));
    assert!(health_passes(HealthVerdict::Skipped));
    assert!(!health_passes(HealthVerdict::NotServing(2)));
    assert!(!health_passes(HealthVerdict::TimedOut));
}

#[test]
fn grpc_endpoint_uris_are_checked() {
    // A URI that tonic refuses stops the channel, naming the first such URI.
    let g = grpc_setting("static", &["a:1", "bad host:2", "also bad:3"]);
    match build_channel(&g) {
        Err(GrpcConnError::InvalidUri(u)) => assert_eq!(u, "http://bad host:2"),
        other => panic!("unexpected {:?}", other.is_ok()),
    }
    // Planning alone does not parse.
    let p = plan_channel(&g).unwrap();
    assert_eq!(p.uris.len(), 3);
    let uris = p.uris.clone();
    match check_endpoint_uris(p, &vec![true, false, false]) {
        Err(GrpcConnError::InvalidUri(u)) => assert_eq!(u, uris[1]),
        other => panic!("unexpected {:?}", other.is_ok()),
    }
    let p = plan_channel(&g).unwrap();
    match check_endpoint_uris(p, &vec![true, true, false]) {
        Err(GrpcConnError::InvalidUri(u)) => assert_eq!(u, uris[2]),
        other => panic!("unexpected {:?}", other.is_ok()),
    }
    let p = plan_channel(&g).unwrap();
    assert_eq!(check_endpoint_uris(p, &vec![true, true, true]).unwrap().uris, uris);
}

#[test]
fn grpc_service_startup_decisions() {
    let mut clients = sample_grpc_clients_setting();
    let mut g = grpc_setting("static", &["a:1"]);
    g.health_check_enabled = false;
    clients.is_enabled = false;
    assert!(matches!(service_startup(&clients, &g), Ok(None)));
    // Disabled clients are not even planned.
    assert!(matches!(service_startup(&clients, &grpc_setting("static", &[])), Ok(None)));
    clients.is_enabled = true;
    let s = service_startup(&clients, &g).unwrap().unwrap();
    assert!(!s.health_check);
    assert_eq!(s.plan.uris, vec!["http://a:1"]);
    g.health_check_enabled = true;
    assert!(service_startup(&clients, &g).unwrap().unwrap().health_check);
    assert!(matches!(
        service_startup(&clients, &grpc_setting("static", &[])),
        Err(GrpcConnError::EmptyStaticAddresses)
    ));
}

#[test]
fn connection_error_texts() {
    assert_eq!(
        GrpcConnError::EmptyStaticAddresses.message(),
        "endpoint.addresses must not be empty for static discovery"
    );
    assert_eq!(
        GrpcConnError::MissingServiceName.message(),
        "endpoint.service_name is required for dns discovery"
    );
    assert_eq!(
        GrpcConnError::UnsupportedDiscovery(String::from("consul")).message(),
        "unsupported endpoint discovery mode 'consul'; expected 'static' or 'dns'"
    );
    assert_eq!(
        GrpcConnError::InvalidUri(String::from("http://bad host:2")).message(),
        "parsing gRPC endpoint URI 'http://bad host:2'"
    );
    assert_eq!(
        RedisConnError::UnknownType(String::from("memcached")).message(),
        "unknown redis type 'memcached'; expected standalone|sentinel|cluster"
    );
    assert_eq!(
        RedisConnError::MissingStandalone.message(),
        "standalone config missing for type=standalone"
    );
    assert_eq!(RedisConnError::MissingSentinel.message(), "sentinel config missing for type=sentinel");
    assert_eq!(RedisConnError::MissingCluster.message(), "cluster config missing for type=cluster");
    assert_eq!(
        PgConfigError::EmptyAddress.message(),
        "postgresql.connection.address must not be empty"
    );
    assert_eq!(PgConfigError::MissingPort(String::from("db")).message(), "address 'db' must be host:port");
    assert_eq!(
        PgConfigError::InvalidPort(String::from("70000")).message(),
        "port '70000' is not a valid u16"
    );
    assert_eq!(
        QdrantConfigError::TlsUnsupported.message(),
        "TLS is not supported for Qdrant connection"
    );
    assert_eq!(
        QdrantConfigError::UnknownCompression(String::from("br")).message(),
        "unknown qdrant compression 'br'; expected none|gzip"
    );
    assert_eq!(
        ScyllaConfigError::UnknownCompression(String::from("zstd")).message(),
        "unknown compression 'zstd'; expected none|snappy|lz4"
    );
    assert_eq!(
        ScyllaConfigError::UnknownConsistency(String::from("MOST")).message(),
        "unknown consistency 'MOST'; expected ANY|ONE|TWO|THREE|QUORUM|ALL|LOCAL_QUORUM|EACH_QUORUM|LOCAL_ONE"
    );
    assert_eq!(
        ScyllaConfigError::UnknownSerialConsistency(String::from("X")).message(),
        "unknown serial consistency 'X'; expected SERIAL|LOCAL_SERIAL"
    );
    assert_eq!(
        ScyllaConfigError::UnknownRetryPolicy(String::from("eager")).message(),
        "unknown retry policy 'eager'; expected default|downgrading|fallthrough"
    );
    assert_eq!(
        S3ConfigError::UnsupportedType(String::from("gcs")).message(),
        "unsupported object storage type 'gcs'; only 's3' is implemented"
    );
}
